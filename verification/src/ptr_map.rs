//! Maps from syntax pointers to values.

use vstd::prelude::*;
use rustc_hash::FxHashMap;
use crate::fx::{fx_map_get, fx_map_insert, fx_map_new};
use crate::syntax_kind::SyntaxKind;
use crate::syntax_ptr::LocalSyntaxPtr;

verus! {

/// The number under which a hash map holds a pointer: the start of its
/// range, the end and the code of its kind, side by side.
pub open spec fn spec_key(p: LocalSyntaxPtr) -> u128 {
    (p.range.start as int * 0x1_0000_0000_0000_0000 + p.range.end as int * 0x1_0000_0000
        + p.kind.spec_code() as int) as u128
}

/// The number under which a hash map holds a pointer.
pub fn key(p: LocalSyntaxPtr) -> (r: u128)
    ensures
        r == spec_key(p),
{
    let start: u128 = p.range.start as u128;
    let end: u128 = p.range.end as u128;
    let code: u128 = p.kind.code() as u128;
    start * 0x1_0000_0000_0000_0000 + end * 0x1_0000_0000 + code
}

/// Different pointers have different keys.
pub proof fn lemma_key_injective(p: LocalSyntaxPtr, q: LocalSyntaxPtr)
    requires
        spec_key(p) == spec_key(q),
    ensures
        p == q,
{
    let a = p.range.start as int * 0x1_0000_0000_0000_0000 + p.range.end as int * 0x1_0000_0000
        + p.kind.spec_code() as int;
    let b = q.range.start as int * 0x1_0000_0000_0000_0000 + q.range.end as int * 0x1_0000_0000
        + q.kind.spec_code() as int;
    assert(a == b);
    assert(p.range.start == q.range.start);
    assert(p.range.end == q.range.end);
    SyntaxKind::lemma_code_injective(p.kind, q.kind);
}

/// A map from syntax pointers to values, held in a hash map under the
/// pointers' keys.
#[derive(Debug, PartialEq, Eq)]
pub struct PtrMap<V> {
    map: FxHashMap<u128, V>,
}

impl<V> View for PtrMap<V> {
    type V = Map<LocalSyntaxPtr, V>;

    closed spec fn view(&self) -> Map<LocalSyntaxPtr, V> {
        Map::new(
            |p: LocalSyntaxPtr| self.map@.contains_key(spec_key(p)),
            |p: LocalSyntaxPtr| self.map@[spec_key(p)],
        )
    }
}

impl<V> PtrMap<V> {
    /// A map that holds nothing.
    pub fn new() -> (r: Self)
        ensures
            r@.dom() == Set::<LocalSyntaxPtr>::empty(),
    {
        let r = PtrMap { map: fx_map_new() };
        assert(r@.dom() =~= Set::empty());
        r
    }

    /// Lets `ptr` map to `value`, and hands back what `ptr` mapped to before.
    pub fn insert(&mut self, ptr: LocalSyntaxPtr, value: V) -> (had: Option<V>)
        ensures
            final(self)@ == old(self)@.insert(ptr, value),
            had == (if old(self)@.contains_key(ptr) {
                Some(old(self)@[ptr])
            } else {
                None
            }),
    {
        broadcast use vstd::std_specs::hash::group_hash_axioms;
        let had = fx_map_insert(&mut self.map, key(ptr), value);
        proof {
            assert forall|p: LocalSyntaxPtr| spec_key(p) == spec_key(ptr) implies p == ptr by {
                lemma_key_injective(p, ptr);
            }
            assert(self@ =~= old(self)@.insert(ptr, value));
        }
        had
    }

    /// What `ptr` maps to, if it maps to something.
    pub fn get(&self, ptr: LocalSyntaxPtr) -> (r: Option<&V>)
        ensures
            r == (if self@.contains_key(ptr) {
                Some(&self@[ptr])
            } else {
                None
            }),
    {
        broadcast use vstd::std_specs::hash::group_hash_axioms;
        let k = key(ptr);
        fx_map_get(&self.map, &k)
    }
}

} // verus!
