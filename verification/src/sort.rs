//! Sort configuration for the starred-repository list.
//!
//! The remote API accepts two sort fields and two directions; each is
//! mapped to a fixed request-parameter string.  Changing the field
//! resets the direction to ascending, while toggling the direction in
//! place keeps the field; both are decided by the state layer.

use vstd::prelude::*;

verus! {

/// Field the starred list is ordered by (only fields the remote API supports).
#[derive(Debug, Clone, Copy, PartialEq, Eq, Structural)]
pub enum SortField {
    /// When the repository was starred (request parameter `created`).
    Starred,
    /// When the repository was last pushed to (request parameter `updated`).
    Pushed,
}

impl Default for SortField {
    fn default() -> (r: Self)
        ensures
            r == SortField::Pushed,
    {
        SortField::Pushed
    }
}

impl SortField {
    /// Human-readable name of the field.
    pub fn label(&self) -> (r: &'static str)
        ensures
            *self == SortField::Starred ==> r@ == "Starred"@,
            *self == SortField::Pushed ==> r@ == "Pushed"@,
    {
        match self {
            SortField::Starred => "Starred",
            SortField::Pushed => "Pushed",
        }
    }

    /// Value sent as the `sort` request parameter.
    pub fn api_value(&self) -> (r: &'static str)
        ensures
            *self == SortField::Starred ==> r@ == "created"@,
            *self == SortField::Pushed ==> r@ == "updated"@,
    {
        match self {
            SortField::Starred => "created",
            SortField::Pushed => "updated",
        }
    }

    /// Every sort field, in the order the toolbar offers them.
    pub fn all() -> (r: Vec<SortField>)
        ensures
            r@ == seq![SortField::Starred, SortField::Pushed],
    {
        let fields = vec![SortField::Starred, SortField::Pushed];
        proof {
            assert(fields@ =~= seq![SortField::Starred, SortField::Pushed]);
        }
        fields
    }
}

/// Direction the starred list is ordered in.
#[derive(Debug, Clone, Copy, PartialEq, Eq, Structural)]
pub enum SortDirection {
    Asc,
    Desc,
}

impl Default for SortDirection {
    fn default() -> (r: Self)
        ensures
            r == SortDirection::Asc,
    {
        SortDirection::Asc
    }
}

impl SortDirection {
    /// The opposite direction.
    pub fn toggle(&self) -> (r: Self)
        ensures
            r == self.spec_toggle(),
    {
        match self {
            SortDirection::Asc => SortDirection::Desc,
            SortDirection::Desc => SortDirection::Asc,
        }
    }

    /// What `toggle` returns.
    pub open spec fn spec_toggle(self) -> SortDirection {
        match self {
            SortDirection::Asc => SortDirection::Desc,
            SortDirection::Desc => SortDirection::Asc,
        }
    }

    /// Arrow shown next to the active sort field.
    pub fn label(&self) -> (r: &'static str)
        ensures
            *self == SortDirection::Asc ==> r@ == "\u{2191}"@,
            *self == SortDirection::Desc ==> r@ == "\u{2193}"@,
    {
        match self {
            SortDirection::Asc => "\u{2191}",
            SortDirection::Desc => "\u{2193}",
        }
    }

    /// Value sent as the `direction` request parameter.
    pub fn api_value(&self) -> (r: &'static str)
        ensures
            *self == SortDirection::Asc ==> r@ == "asc"@,
            *self == SortDirection::Desc ==> r@ == "desc"@,
    {
        match self {
            SortDirection::Asc => "asc",
            SortDirection::Desc => "desc",
        }
    }
}

/// Toggling the sort direction twice returns to the original direction.
pub proof fn lemma_toggle_twice(d: SortDirection)
    ensures
        d.spec_toggle().spec_toggle() == d,
{
}

} // verus!
