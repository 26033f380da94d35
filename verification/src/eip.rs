//! The address record and the rule that decides whether an association call
//! is needed.
//!
//! An elastic IP resource is identified durably by its allocation id; the
//! address value itself is informational and never used for identity
//! comparisons. The provider's lookup for an instance may report several
//! addresses (other tooling may have attached its own); this crate only
//! inspects them, and it matches purely by allocation id.

use vstd::prelude::*;

verus! {

/// One persistent address resource, as this crate knows it: the provider's
/// durable allocation id and the (informational) public address value.
#[derive(Debug, Clone, PartialEq, Eq)]
pub struct Eip {
    pub allocation_id: String,
    pub public_ip: String,
}

/// Mathematical image of an [`Eip`]: both fields as character sequences.
pub struct EipView {
    pub allocation_id: Seq<char>,
    pub public_ip: Seq<char>,
}

impl View for Eip {
    type V = EipView;

    open spec fn view(&self) -> EipView {
        EipView { allocation_id: self.allocation_id@, public_ip: self.public_ip@ }
    }
}

/// The image of a vector of records: each element viewed.
pub open spec fn eips_view(eips: Seq<Eip>) -> Seq<EipView> {
    eips.map_values(|e: Eip| e@)
}

/// Whether some record in `eips` carries exactly the allocation id `id`.
pub open spec fn has_allocation(eips: Seq<EipView>, id: Seq<char>) -> bool {
    exists|i: int| 0 <= i < eips.len() && eips[i].allocation_id == id
}

/// The matching rule of reconciliation: an association call is needed
/// exactly when no address currently reported for the instance carries the
/// crate's own allocation id. An empty report therefore always needs one,
/// and a report that holds the id anywhere — whatever its position, address
/// value or other entries — never does.
pub fn needs_association(eips: &Vec<Eip>, own_allocation_id: &String) -> (r: bool)
    ensures
        r == !has_allocation(eips_view(eips@), own_allocation_id@),
{
    let n = eips.len();
    let mut i: usize = 0;
    while i < n
        invariant
            n == eips@.len(),
            0 <= i <= n,
            forall|j: int| 0 <= j < i ==> eips_view(eips@)[j].allocation_id != own_allocation_id@,
        decreases n - i,
    {
        if eips[i].allocation_id == *own_allocation_id {
            assert(eips_view(eips@)[i as int].allocation_id == own_allocation_id@);
            return false;
        }
        i = i + 1;
    }
    true
}

} // verus!
