//! Mail labels. Label IDs are used interchangeably for what one would
//! consider mail labels and mailboxes.
use vstd::prelude::*;

verus! {

/// Boolean as the mail API encodes it.
#[derive(Debug, Copy, Clone, PartialEq, Eq, Structural)]
pub enum Boolean {
    False,
    True,
}

/// Labels API ID.
#[derive(Debug)]
pub struct Id(pub String);

impl View for Id {
    type V = Seq<char>;

    open spec fn view(&self) -> Seq<char> {
        self.0@
    }
}

impl PartialEq for Id {
    fn eq(&self, other: &Self) -> (r: bool) {
        self.0 == other.0
    }
}

impl vstd::std_specs::cmp::PartialEqSpecImpl for Id {
    open spec fn obeys_eq_spec() -> bool {
        true
    }

    open spec fn eq_spec(&self, other: &Id) -> bool {
        self@ == other@
    }
}

impl Eq for Id {}

impl Clone for Id {
    fn clone(&self) -> (r: Self)
        ensures
            r@ == self@,
    {
        Id(self.0.clone())
    }
}

/// Type of the label.
#[derive(Debug, Copy, Clone, PartialEq, Eq, Structural)]
pub enum Type {
    Label,
    ContactGroup,
    Folder,
    System,
}

impl Type {
    /// The number that encodes this type.
    pub fn code(&self) -> (r: u8)
        ensures
            r == match self {
                Type::Label => 1u8,
                Type::ContactGroup => 2u8,
                Type::Folder => 3u8,
                Type::System => 4u8,
            },
    {
        match self {
            Type::Label => 1,
            Type::ContactGroup => 2,
            Type::Folder => 3,
            Type::System => 4,
        }
    }

    /// The type that `code` encodes, if any.
    pub fn from_code(code: u8) -> (r: Option<Type>)
        ensures
            r matches Some(t) ==> t.code_spec() == code,
            r is None <==> !(1 <= code <= 4),
    {
        match code {
            1 => Some(Type::Label),
            2 => Some(Type::ContactGroup),
            3 => Some(Type::Folder),
            4 => Some(Type::System),
            _ => None,
        }
    }

    /// The number that encodes this type.
    pub open spec fn code_spec(&self) -> u8 {
        match self {
            Type::Label => 1u8,
            Type::ContactGroup => 2u8,
            Type::Folder => 3u8,
            Type::System => 4u8,
        }
    }
}

/// Represents a location where you can find your messages.
#[derive(Debug)]
pub struct Label {
    pub id: Id,
    pub parent_id: Option<Id>,
    pub name: String,
    pub path: String,
    pub color: String,
    pub label_type: Type,
    pub notify: Boolean,
    pub display: Boolean,
    pub sticky: Boolean,
    pub expanded: Boolean,
    pub order: i32,
}

/// The order of a label that does not state one.
pub fn default_label_order() -> (r: i32)
    ensures
        r == 0,
{
    0
}

/// System label identifiers, the same for every account.
#[derive(Debug, Copy, Clone)]
pub struct SysLabelId(&'static str);

impl View for SysLabelId {
    type V = Seq<char>;

    closed spec fn view(&self) -> Seq<char> {
        self.0@
    }
}

impl SysLabelId {
    pub fn inbox() -> (r: SysLabelId)
        ensures
            r@ == "0"@,
    {
        SysLabelId("0")
    }

    pub fn all_drafts() -> (r: SysLabelId)
        ensures
            r@ == "1"@,
    {
        SysLabelId("1")
    }

    pub fn all_sent() -> (r: SysLabelId)
        ensures
            r@ == "1"@,
    {
        SysLabelId("1")
    }

    pub fn trash() -> (r: SysLabelId)
        ensures
            r@ == "3"@,
    {
        SysLabelId("3")
    }

    pub fn spam() -> (r: SysLabelId)
        ensures
            r@ == "4"@,
    {
        SysLabelId("4")
    }

    pub fn all_mail() -> (r: SysLabelId)
        ensures
            r@ == "5"@,
    {
        SysLabelId("5")
    }

    pub fn archive() -> (r: SysLabelId)
        ensures
            r@ == "6"@,
    {
        SysLabelId("6")
    }

    pub fn sent() -> (r: SysLabelId)
        ensures
            r@ == "7"@,
    {
        SysLabelId("7")
    }

    pub fn drafts() -> (r: SysLabelId)
        ensures
            r@ == "8"@,
    {
        SysLabelId("8")
    }

    pub fn outbox() -> (r: SysLabelId)
        ensures
            r@ == "9"@,
    {
        SysLabelId("9")
    }

    pub fn starred() -> (r: SysLabelId)
        ensures
            r@ == "10"@,
    {
        SysLabelId("10")
    }

    pub fn all_scheduled() -> (r: SysLabelId)
        ensures
            r@ == "12"@,
    {
        SysLabelId("12")
    }

    /// The label ID of this system label.
    pub fn to_id(&self) -> (r: Id)
        ensures
            r@ == self@,
    {
        Id(self.0.to_owned())
    }

    /// Whether `id` is this system label.
    pub fn eq_id(&self, id: &Id) -> (r: bool)
        ensures
            r == (self@ == id@),
    {
        let own = self.0.to_owned();
        own == id.0
    }

    /// The text of this system label.
    pub fn as_str(&self) -> (r: &'static str)
        ensures
            r@ == self@,
    {
        self.0
    }
}

impl Id {
    pub fn inbox() -> (r: Self)
        ensures
            r@ == "0"@,
    {
        SysLabelId::inbox().to_id()
    }

    pub fn all_drafts() -> (r: Self)
        ensures
            r@ == "1"@,
    {
        SysLabelId::all_drafts().to_id()
    }

    pub fn all_sent() -> (r: Self)
        ensures
            r@ == "1"@,
    {
        SysLabelId::all_sent().to_id()
    }

    pub fn trash() -> (r: Self)
        ensures
            r@ == "3"@,
    {
        SysLabelId::trash().to_id()
    }

    pub fn spam() -> (r: Self)
        ensures
            r@ == "4"@,
    {
        SysLabelId::spam().to_id()
    }

    pub fn all_mail() -> (r: Self)
        ensures
            r@ == "5"@,
    {
        SysLabelId::all_mail().to_id()
    }

    pub fn archive() -> (r: Self)
        ensures
            r@ == "6"@,
    {
        SysLabelId::archive().to_id()
    }

    pub fn sent() -> (r: Self)
        ensures
            r@ == "7"@,
    {
        SysLabelId::sent().to_id()
    }

    pub fn drafts() -> (r: Self)
        ensures
            r@ == "8"@,
    {
        SysLabelId::drafts().to_id()
    }

    pub fn outbox() -> (r: Self)
        ensures
            r@ == "9"@,
    {
        SysLabelId::outbox().to_id()
    }

    pub fn starred() -> (r: Self)
        ensures
            r@ == "10"@,
    {
        SysLabelId::starred().to_id()
    }

    pub fn all_scheduled() -> (r: Self)
        ensures
            r@ == "12"@,
    {
        SysLabelId::all_scheduled().to_id()
    }
}

} // verus!
