//! Identifiers for events, scenes, and the other items of the installation.
//!
//! An `ItemId` is a 32-bit handle with a private field. The id `ALL_STOP`
//! (zero) is reserved for the emergency-stop command and is never a valid
//! user item; on installations that share a CAN-like bus, valid ids are
//! further capped at 29 bits.

use vstd::prelude::*;
use vstd::std_specs::cmp::PartialEqSpec;

pub use DisplayType::{DisplayControl, DisplayDebug, DisplayWith, Hidden, LabelControl, LabelHidden};

verus! {

/// The all-stop command id (emergency stop), reserved.
pub const ALL_STOP: u32 = 0;

/// A special id reserved for communication errors.
pub const COMM_ERROR: u32 = 1;

/// A special id reserved for read errors.
pub const READ_ERROR: u32 = 0xFFFFFFFF;

/// The first id past the 29-bit range that a CAN-like bus can carry.
pub const BUS_ID_LIMIT: u32 = 0x1FFFFFFF;

/// A generic identifier for the different aspects of the configuration
/// (events, scenes, statuses). The id field is private so that every
/// checked construction goes through [`ItemId::new`].
#[derive(Copy, Clone, PartialEq, Eq, Structural, PartialOrd, Ord, Hash, Debug)]
pub struct ItemId {
    id: u32,
}

/// Whether `id` may name a user item: it does not collide with the
/// all-stop sentinel and fits in the 29 bits a CAN-like bus can carry.
pub open spec fn valid_id(id: u32) -> bool {
    id != ALL_STOP && id < BUS_ID_LIMIT
}

impl ItemId {
    /// The numeric id, for use in specifications.
    pub closed spec fn spec_id(&self) -> u32 {
        self.id
    }

    /// A checked constructor: refuses the all-stop id and any id past the
    /// 29-bit bus limit.
    pub fn new(id: u32) -> (r: Option<ItemId>)
        ensures
            r is Some <==> valid_id(id),
            r matches Some(item) ==> item.spec_id() == id,
    {
        // Verify id does not conflict with all stop
        if id == ALL_STOP {
            return None;
        }
        // Verify the 29-bit limit for the bus
        if id >= BUS_ID_LIMIT {
            return None;
        }
        Some(ItemId { id })
    }

    /// An unchecked constructor, for internal uses where the sentinels or
    /// out-of-range ids are themselves wanted (defaults, error markers).
    pub fn new_unchecked(id: u32) -> (r: ItemId)
        ensures
            r.spec_id() == id,
    {
        ItemId { id }
    }

    /// The numeric id of the item.
    pub fn id(&self) -> (r: u32)
        ensures
            r == self.spec_id(),
    {
        self.id
    }

    /// The numeric id of the item as a decimal string.
    pub fn as_string(&self) -> (r: String)
        ensures
            r@ == crate::text::spec_decimal(self.spec_id() as nat),
    {
        crate::text::decimal_string(self.id)
    }

    /// The reserved all-stop id, which halts every active process on the
    /// system.
    pub fn all_stop() -> (r: ItemId)
        ensures
            r.spec_id() == ALL_STOP,
    {
        ItemId { id: ALL_STOP }
    }
}

/// Every valid id differs from the all-stop sentinel and fits under the
/// 29-bit bus cap.
pub proof fn lemma_valid_id_bounds(id: u32)
    requires
        valid_id(id),
    ensures
        id != 0,
        id < 0x20000000,
{
}

/// How an item is presented in the operator interface. Display data is
/// rendering metadata only: it plays no role in bus behaviour.
#[derive(Copy, Clone, Eq, Debug)]
pub enum DisplayType {
    /// Items shown in the top-level control group.
    DisplayControl {
        position: Option<u32>,
        color: Option<(u8, u8, u8)>,
        highlight: Option<(u8, u8, u8)>,
        highlight_state: Option<(ItemId, ItemId)>,
        spotlight: Option<u32>,
    },
    /// Items shown with a specific group, paired with that group's status.
    DisplayWith {
        group_id: ItemId,
        position: Option<u32>,
        color: Option<(u8, u8, u8)>,
        highlight: Option<(u8, u8, u8)>,
        highlight_state: Option<(ItemId, ItemId)>,
        spotlight: Option<u32>,
    },
    /// Items shown only while the program is in debug mode.
    DisplayDebug {
        group_id: Option<ItemId>,
        position: Option<u32>,
        color: Option<(u8, u8, u8)>,
        highlight: Option<(u8, u8, u8)>,
        highlight_state: Option<(ItemId, ItemId)>,
        spotlight: Option<u32>,
    },
    /// Items shown as a label in the control area, not as a triggerable
    /// event.
    LabelControl {
        position: Option<u32>,
        color: Option<(u8, u8, u8)>,
        highlight: Option<(u8, u8, u8)>,
        highlight_state: Option<(ItemId, ItemId)>,
        spotlight: Option<u32>,
    },
    /// Items shown only as a label.
    LabelHidden {
        position: Option<u32>,
        color: Option<(u8, u8, u8)>,
        highlight: Option<(u8, u8, u8)>,
        highlight_state: Option<(ItemId, ItemId)>,
        spotlight: Option<u32>,
    },
    /// Items that are not displayed at all.
    Hidden,
}

fn opt_u32_eq(a: &Option<u32>, b: &Option<u32>) -> (r: bool)
    ensures
        r == (a == b),
{
    match (a, b) {
        (Option::Some(x), Option::Some(y)) => *x == *y,
        (Option::None, Option::None) => true,
        _ => false,
    }
}

fn opt_rgb_eq(a: &Option<(u8, u8, u8)>, b: &Option<(u8, u8, u8)>) -> (r: bool)
    ensures
        r == (a == b),
{
    match (a, b) {
        (Option::Some(x), Option::Some(y)) => x.0 == y.0 && x.1 == y.1 && x.2 == y.2,
        (Option::None, Option::None) => true,
        _ => false,
    }
}

fn opt_state_eq(a: &Option<(ItemId, ItemId)>, b: &Option<(ItemId, ItemId)>) -> (r: bool)
    ensures
        r == (a == b),
{
    match (a, b) {
        (Option::Some(x), Option::Some(y)) => x.0 == y.0 && x.1 == y.1,
        (Option::None, Option::None) => true,
        _ => false,
    }
}

fn opt_id_eq(a: &Option<ItemId>, b: &Option<ItemId>) -> (r: bool)
    ensures
        r == (a == b),
{
    match (a, b) {
        (Option::Some(x), Option::Some(y)) => *x == *y,
        (Option::None, Option::None) => true,
        _ => false,
    }
}

impl PartialEq for DisplayType {
    /// Display data compares field by field.
    fn eq(&self, other: &DisplayType) -> (r: bool) {
        match (self, other) {
            (
                DisplayType::DisplayControl {
                    position: p1,
                    color: c1,
                    highlight: h1,
                    highlight_state: s1,
                    spotlight: l1,
                },
                DisplayType::DisplayControl {
                    position: p2,
                    color: c2,
                    highlight: h2,
                    highlight_state: s2,
                    spotlight: l2,
                },
            ) => opt_u32_eq(p1, p2) && opt_rgb_eq(c1, c2) && opt_rgb_eq(h1, h2) && opt_state_eq(
                s1,
                s2,
            ) && opt_u32_eq(l1, l2),
            (
                DisplayType::DisplayWith {
                    group_id: g1,
                    position: p1,
                    color: c1,
                    highlight: h1,
                    highlight_state: s1,
                    spotlight: l1,
                },
                DisplayType::DisplayWith {
                    group_id: g2,
                    position: p2,
                    color: c2,
                    highlight: h2,
                    highlight_state: s2,
                    spotlight: l2,
                },
            ) => *g1 == *g2 && opt_u32_eq(p1, p2) && opt_rgb_eq(c1, c2) && opt_rgb_eq(h1, h2)
                && opt_state_eq(s1, s2) && opt_u32_eq(l1, l2),
            (
                DisplayType::DisplayDebug {
                    group_id: g1,
                    position: p1,
                    color: c1,
                    highlight: h1,
                    highlight_state: s1,
                    spotlight: l1,
                },
                DisplayType::DisplayDebug {
                    group_id: g2,
                    position: p2,
                    color: c2,
                    highlight: h2,
                    highlight_state: s2,
                    spotlight: l2,
                },
            ) => opt_id_eq(g1, g2) && opt_u32_eq(p1, p2) && opt_rgb_eq(c1, c2) && opt_rgb_eq(
                h1,
                h2,
            ) && opt_state_eq(s1, s2) && opt_u32_eq(l1, l2),
            (
                DisplayType::LabelControl {
                    position: p1,
                    color: c1,
                    highlight: h1,
                    highlight_state: s1,
                    spotlight: l1,
                },
                DisplayType::LabelControl {
                    position: p2,
                    color: c2,
                    highlight: h2,
                    highlight_state: s2,
                    spotlight: l2,
                },
            ) => opt_u32_eq(p1, p2) && opt_rgb_eq(c1, c2) && opt_rgb_eq(h1, h2) && opt_state_eq(
                s1,
                s2,
            ) && opt_u32_eq(l1, l2),
            (
                DisplayType::LabelHidden {
                    position: p1,
                    color: c1,
                    highlight: h1,
                    highlight_state: s1,
                    spotlight: l1,
                },
                DisplayType::LabelHidden {
                    position: p2,
                    color: c2,
                    highlight: h2,
                    highlight_state: s2,
                    spotlight: l2,
                },
            ) => opt_u32_eq(p1, p2) && opt_rgb_eq(c1, c2) && opt_rgb_eq(h1, h2) && opt_state_eq(
                s1,
                s2,
            ) && opt_u32_eq(l1, l2),
            (DisplayType::Hidden, DisplayType::Hidden) => true,
            _ => false,
        }
    }
}

impl vstd::std_specs::cmp::PartialEqSpecImpl for DisplayType {
    open spec fn obeys_eq_spec() -> bool {
        true
    }

    open spec fn eq_spec(&self, other: &DisplayType) -> bool {
        *self == *other
    }
}

/// A human description paired with display data, to go with an [`ItemId`].
#[derive(Clone, Eq, Debug)]
pub struct ItemDescription {
    pub description: String,
    pub display: DisplayType,
}

impl ItemDescription {
    /// A description from a text and a display type.
    pub fn new(description: &str, display: DisplayType) -> (r: ItemDescription)
        ensures
            r.description@ == description@,
            r.display == display,
    {
        ItemDescription { description: description.to_owned(), display }
    }
}

impl PartialEq for ItemDescription {
    /// Descriptions compare by text and display data.
    fn eq(&self, other: &ItemDescription) -> (r: bool) {
        self.description == other.description && self.display == other.display
    }
}

impl vstd::std_specs::cmp::PartialEqSpecImpl for ItemDescription {
    open spec fn obeys_eq_spec() -> bool {
        true
    }

    open spec fn eq_spec(&self, other: &ItemDescription) -> bool {
        self.description@ == other.description@ && self.display == other.display
    }
}

/// An [`ItemId`] combined with its description and display data, as the
/// configuration and the operator interface exchange them.
#[derive(Clone, Eq, Debug)]
pub struct ItemPair {
    id: u32,
    pub description: String,
    pub display: DisplayType,
}

impl ItemPair {
    /// The numeric id, for use in specifications.
    pub closed spec fn spec_id(&self) -> u32 {
        self.id
    }

    /// The description text, for use in specifications.
    pub closed spec fn spec_description(&self) -> Seq<char> {
        self.description@
    }

    /// The display data, for use in specifications.
    pub closed spec fn spec_display(&self) -> DisplayType {
        self.display
    }

    /// Whether the two pairs agree on every field, not only the id.
    pub open spec fn spec_deep_eq(&self, other: &ItemPair) -> bool {
        &&& self.spec_id() == other.spec_id()
        &&& self.spec_description() == other.spec_description()
        &&& self.spec_display() == other.spec_display()
    }

    /// A checked constructor: refuses the all-stop id and any id past the
    /// 29-bit bus limit.
    pub fn new(id: u32, description: &str, display: DisplayType) -> (r: Option<ItemPair>)
        ensures
            r is Some <==> valid_id(id),
            r matches Some(pair) ==> pair.spec_id() == id && pair.spec_description()
                == description@ && pair.spec_display() == display,
    {
        // Verify id does not conflict with all stop
        if id == ALL_STOP {
            return None;
        }
        // Verify the 29-bit limit for the bus
        if id >= BUS_ID_LIMIT {
            return None;
        }
        Some(ItemPair { id, description: description.to_owned(), display })
    }

    /// An unchecked constructor, for internal uses where the sentinels or
    /// out-of-range ids are themselves wanted.
    pub fn new_unchecked(id: u32, description: &str, display: DisplayType) -> (r: ItemPair)
        ensures
            r.spec_id() == id,
            r.spec_description() == description@,
            r.spec_display() == display,
    {
        ItemPair { id, description: description.to_owned(), display }
    }

    /// A pair from an id and a description, consuming both.
    pub fn from_item(id: ItemId, description: ItemDescription) -> (r: ItemPair)
        ensures
            r.spec_id() == id.spec_id(),
            r.spec_description() == description.description@,
            r.spec_display() == description.display,
    {
        ItemPair { id: id.id(), description: description.description, display: description.display }
    }

    /// The numeric id of the pair.
    pub fn id(&self) -> (r: u32)
        ensures
            r == self.spec_id(),
    {
        self.id
    }

    /// The id of the pair as an [`ItemId`].
    pub fn get_id(&self) -> (r: ItemId)
        ensures
            r.spec_id() == self.spec_id(),
    {
        ItemId::new_unchecked(self.id)
    }

    /// A fresh copy of the description text.
    pub fn description(&self) -> (r: String)
        ensures
            r@ == self.spec_description(),
    {
        self.description.clone()
    }

    /// The description and display data as an [`ItemDescription`].
    pub fn get_description(&self) -> (r: ItemDescription)
        ensures
            r.description@ == self.spec_description(),
            r.display == self.spec_display(),
    {
        ItemDescription { description: self.description.clone(), display: self.display }
    }

    /// Whether the pairs agree on every field: the id (which is all that
    /// `==` compares), the description, and the display data.
    pub fn truly_equal(&self, other_id: &ItemPair) -> (r: bool)
        ensures
            r == self.spec_deep_eq(other_id),
    {
        self == other_id && self.description == other_id.description && self.display
            == other_id.display
    }

    /// The reserved all-stop pair, which halts every active process on the
    /// system.
    pub fn all_stop() -> (r: ItemPair)
        ensures
            r.spec_id() == ALL_STOP,
            r.spec_description() == "ALL STOP"@,
            r.spec_display() == DisplayType::Hidden,
    {
        ItemPair {
            id: ALL_STOP,
            description: "ALL STOP".to_owned(),
            display: DisplayType::Hidden,
        }
    }
}

impl PartialEq for ItemPair {
    /// Pairs compare by id alone; [`ItemPair::truly_equal`] compares the
    /// description and display data as well.
    fn eq(&self, rhs: &ItemPair) -> (r: bool) {
        self.id == rhs.id
    }
}

impl vstd::std_specs::cmp::PartialEqSpecImpl for ItemPair {
    open spec fn obeys_eq_spec() -> bool {
        true
    }

    open spec fn eq_spec(&self, other: &ItemPair) -> bool {
        self.spec_id() == other.spec_id()
    }
}

impl PartialOrd for ItemPair {
    /// Pairs order by id alone.
    fn partial_cmp(&self, other: &ItemPair) -> (r: Option<core::cmp::Ordering>) {
        if self.id < other.id {
            Some(core::cmp::Ordering::Less)
        } else if self.id == other.id {
            Some(core::cmp::Ordering::Equal)
        } else {
            Some(core::cmp::Ordering::Greater)
        }
    }
}

impl vstd::std_specs::cmp::PartialOrdSpecImpl for ItemPair {
    open spec fn obeys_partial_cmp_spec() -> bool {
        true
    }

    open spec fn partial_cmp_spec(&self, other: &ItemPair) -> Option<core::cmp::Ordering> {
        if self.spec_id() < other.spec_id() {
            Some(core::cmp::Ordering::Less)
        } else if self.spec_id() == other.spec_id() {
            Some(core::cmp::Ordering::Equal)
        } else {
            Some(core::cmp::Ordering::Greater)
        }
    }
}

/// Equality on pairs ignores the description and the display data, and
/// deep equality is stronger than equality.
pub proof fn lemma_pair_equality(a: ItemPair, b: ItemPair)
    ensures
        a.eq_spec(&b) == (a.spec_id() == b.spec_id()),
        a.spec_deep_eq(&b) ==> a.eq_spec(&b),
{
}

} // verus!
