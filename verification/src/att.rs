//! Attribute Protocol (ATT) data model.
//!
//! Attributes live in a flat 16-bit handle space. A provider's table is a
//! contiguous, handle-ordered block of attributes; range queries are answered
//! by index arithmetic over that block.

use crate::uuid::AttUuid;
use vstd::prelude::*;

verus! {

/// An attribute handle: a 16-bit address in ATT's flat attribute space.
///
/// Value `0x0000` is reserved/invalid and is never assigned to a real
/// attribute; valid handles start at `0x0001`.
#[derive(Copy, Clone, Debug, PartialEq, Eq, Structural)]
pub struct Handle(u16);

impl Handle {
    /// The raw 16-bit value of this handle.
    pub closed spec fn spec_raw(self) -> u16 {
        self.0
    }

    /// Creates a handle from a raw 16-bit value.
    pub fn from_raw(raw: u16) -> (h: Self)
        ensures
            h.spec_raw() == raw,
    {
        Handle(raw)
    }

    /// Returns the raw 16-bit value of this handle.
    pub fn as_u16(&self) -> (raw: u16)
        ensures
            raw == self.spec_raw(),
    {
        self.0
    }
}

/// An inclusive range `[start, end]` of handles describing a query window.
///
/// The range-query operation assumes `start <= end` and `start >= 1`; the
/// caller (the ATT engine) rejects syntactically invalid ranges before
/// calling in.
#[derive(Copy, Clone, Debug)]
pub struct HandleRange {
    start: Handle,
    end: Handle,
}

impl HandleRange {
    /// The raw value of the range's first handle.
    pub closed spec fn spec_start(self) -> u16 {
        self.start.spec_raw()
    }

    /// The raw value of the range's last handle.
    pub closed spec fn spec_end(self) -> u16 {
        self.end.spec_raw()
    }

    /// Creates the inclusive handle range `[start, end]`.
    pub fn new(start: Handle, end: Handle) -> (range: Self)
        ensures
            range.spec_start() == start.spec_raw(),
            range.spec_end() == end.spec_raw(),
    {
        HandleRange { start, end }
    }

    /// Returns the range's first handle.
    pub fn start(&self) -> (h: Handle)
        ensures
            h.spec_raw() == self.spec_start(),
    {
        self.start
    }

    /// Returns the range's last handle.
    pub fn end(&self) -> (h: Handle)
        ensures
            h.spec_raw() == self.spec_end(),
    {
        self.end
    }
}

/// One entry in a provider's table: a typed, handle-addressed value.
///
/// The `att_type` identifies the attribute's semantic role (a service
/// declaration, a characteristic declaration, a descriptor, ...); the value
/// is an opaque byte string to this layer.
#[derive(Clone, Debug)]
pub struct Attribute {
    /// The attribute's type UUID.
    pub att_type: AttUuid,
    /// The attribute's handle.
    pub handle: Handle,
    /// The attribute's value bytes.
    pub value: Vec<u8>,
}

impl Attribute {
    /// Creates an attribute from its type, handle and value.
    pub fn new(att_type: AttUuid, handle: Handle, value: Vec<u8>) -> (attr: Self)
        ensures
            attr.att_type == att_type,
            attr.handle == handle,
            attr.value@ == value@,
    {
        Attribute { att_type, handle, value }
    }
}

/// Table well-formedness: the `n`-th attribute of a provider's table has
/// handle `n + 1` (the tables are contiguous blocks based at handle 1), so
/// handles are nonzero, strictly ascending, and free of duplicates.
pub open spec fn table_wf(s: Seq<Attribute>) -> bool {
    &&& s.len() <= 0xFFFF
    &&& forall|i: int| 0 <= i < s.len() ==> (#[trigger] s[i]).handle.spec_raw() == i + 1
}

/// The zero-based table index of the first attribute a range selects.
pub open spec fn range_start_index(range: HandleRange) -> int {
    range.spec_start() - 1
}

/// The zero-based table index of the last attribute a range selects, in a
/// table of `count` attributes: a range extending past the table's last
/// handle is truncated to the table's end.
pub open spec fn range_end_index(range: HandleRange, count: int) -> int {
    if range.spec_end() - 1 < count - 1 {
        range.spec_end() - 1
    } else {
        count - 1
    }
}

/// In a well-formed table, every attribute a range query selects has its
/// handle inside the queried range: a range query never visits an attribute
/// outside `[range.start, range.end]`.
pub proof fn lemma_window_handles_in_range(s: Seq<Attribute>, range: HandleRange, i: int)
    requires
        table_wf(s),
        1 <= range.spec_start() <= range.spec_end(),
        range_start_index(range) <= i <= range_end_index(range, s.len() as int),
        i < s.len(),
    ensures
        range.spec_start() <= s[i].handle.spec_raw() <= range.spec_end(),
{
}

/// A capability implemented by every concrete service table so that an ATT
/// engine can serve it: range queries over the table plus the grouping
/// queries needed by "Read By Group Type"-style requests.
///
/// Invariant expected of every implementation: `table_wf(self.attrs())`, so
/// the `n`-th attribute in iteration order has handle `n + 1` and a range
/// query is answered by index arithmetic instead of a search.
pub trait AttributeProvider: Sized {
    /// The provider's attribute table, in handle order.
    spec fn attrs(&self) -> Seq<Attribute>;

    /// The provider's well-formedness: constructors establish it, and it must
    /// imply `table_wf` of the table (see `wf_implies_table_wf`).
    spec fn wf(&self) -> bool;

    /// Which attribute-type UUIDs start a group on this provider.
    spec fn grouping_spec(&self, uuid: AttUuid) -> bool;

    /// The table index of the last attribute of the group associated with a
    /// raw handle value, if that handle is recognized as belonging to a
    /// group.
    spec fn group_end_index(&self, handle: u16) -> Option<int>;

    /// Every well-formed provider's table is itself well-formed: the `n`-th
    /// attribute has handle `n + 1`, so handles are nonzero, strictly
    /// ascending, and free of duplicates.
    proof fn wf_implies_table_wf(&self)
        requires
            self.wf(),
        ensures
            table_wf(self.attrs()),
    ;

    /// The group-end association is internally consistent with the table
    /// layout: when a handle is recognized, the attribute it maps to lies in
    /// the table, its handle is not below the queried handle, and it does not
    /// exceed the table's maximum handle.
    proof fn group_end_consistent(&self, handle: u16)
        requires
            self.wf(),
        ensures
            match self.group_end_index(handle) {
                Some(i) => {
                    &&& 0 <= i < self.attrs().len()
                    &&& handle <= self.attrs()[i].handle.spec_raw()
                    &&& self.attrs()[i].handle.spec_raw() <= self.attrs().len()
                },
                None => true,
            },
    ;

    /// Calls `f` with every attribute whose handle falls in `range`, in
    /// ascending handle order, stopping at the first failure and propagating
    /// it unchanged. A range lying before or past the table visits zero
    /// attributes and succeeds.
    fn for_attrs_in_range<E, F: Fn(&Attribute) -> Result<(), E>>(
        &self,
        range: HandleRange,
        f: F,
    ) -> (r: Result<(), E>)
        requires
            self.wf(),
            1 <= range.spec_start() <= range.spec_end(),
            forall|i: int|
                range_start_index(range) <= i <= range_end_index(range, self.attrs().len() as int)
                    && i < self.attrs().len() ==> call_requires(f, (&self.attrs()[i],)),
        ensures
            ({
                let lo = range_start_index(range);
                let hi = range_end_index(range, self.attrs().len() as int);
                &&& (lo >= self.attrs().len() ==> r is Ok)
                &&& (r is Ok ==> forall|i: int|
                    lo <= i <= hi && i < self.attrs().len() ==> call_ensures(
                        f,
                        (&self.attrs()[i],),
                        Ok(()),
                    ))
                &&& (r is Err ==> exists|i: int|
                    lo <= i <= hi && i < self.attrs().len() && call_ensures(
                        f,
                        (&self.attrs()[i],),
                        Err(r->Err_0),
                    ) && (forall|j: int|
                        lo <= j < i ==> call_ensures(f, (&self.attrs()[j],), Ok(()))))
            }),
    ;

    /// Returns whether `uuid` denotes a grouping attribute type: one that
    /// starts a run of handles that together describe one service.
    fn is_grouping_attr(&self, uuid: AttUuid) -> (r: bool)
        ensures
            r == self.grouping_spec(uuid),
    ;

    /// Returns the last attribute of the group associated with `handle`, or
    /// `None` if the handle is not recognized as belonging to a group.
    fn group_end(&self, handle: Handle) -> (r: Option<&Attribute>)
        requires
            self.wf(),
        ensures
            match self.group_end_index(handle.spec_raw()) {
                Some(i) => r is Some && 0 <= i < self.attrs().len() && *r->Some_0
                    == self.attrs()[i],
                None => r is None,
            },
    ;
}

} // verus!
