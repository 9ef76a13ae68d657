//! Handles into the renderer's slot maps, kept as the 64-bit value that
//! `slotmap::KeyData::as_ffi` gives for the key.
use std::marker::PhantomData;
use vstd::prelude::*;

verus! {

/// slotmap's `Key::is_null`, asked of the key that `KeyData::from_ffi(ffi)`
/// rebuilds. By slotmap's source, `from_ffi` takes the low 32 bits as the
/// slot index, and a key is null exactly when that index is `u32::MAX`.
#[verifier::external_body]
fn ffi_key_is_null(ffi: u64) -> (r: bool)
    ensures
        r == (ffi % 0x1_0000_0000 == 0xffff_ffff),
{
    slotmap::Key::is_null(&slotmap::DefaultKey::from(slotmap::KeyData::from_ffi(ffi)))
}

/// The `as_ffi` value of slotmap's null key. By slotmap's source the null key
/// has index `u32::MAX` and version 1, which `as_ffi` packs as
/// `version << 32 | index`.
#[verifier::external_body]
fn null_key_ffi() -> (r: u64)
    ensures
        r == 0x1_ffff_ffff,
{
    slotmap::KeyData::default().as_ffi()
}

/// A key of one slot map; `Tag` keeps keys of different maps apart.
#[derive(Debug, Hash)]
pub struct SlotKey<Tag> {
    ffi: u64,
    _tag: PhantomData<Tag>,
}

impl<Tag> View for SlotKey<Tag> {
    /// The key's `as_ffi` value.
    type V = u64;

    closed spec fn view(&self) -> u64 {
        self.ffi
    }
}

impl<Tag> SlotKey<Tag> {
    /// The key whose `as_ffi` value is `ffi`.
    pub fn from_ffi(ffi: u64) -> (r: Self)
        ensures
            r@ == ffi,
    {
        SlotKey { ffi, _tag: PhantomData }
    }

    /// The key's `as_ffi` value.
    pub fn as_ffi(&self) -> (r: u64)
        ensures
            r == self@,
    {
        self.ffi
    }

    /// The null key, which no slot map hands out.
    pub fn null() -> (r: Self)
        ensures
            r@ == 0x1_ffff_ffff,
            r.spec_is_null(),
    {
        SlotKey { ffi: null_key_ffi(), _tag: PhantomData }
    }

    pub open spec fn spec_is_null(&self) -> bool {
        self@ % 0x1_0000_0000 == 0xffff_ffff
    }

    #[verifier::when_used_as_spec(spec_is_null)]
    pub fn is_null(&self) -> (r: bool)
        ensures
            r == self.spec_is_null(),
    {
        ffi_key_is_null(self.ffi)
    }
}

impl<Tag> Clone for SlotKey<Tag> {
    fn clone(&self) -> (r: Self)
        ensures
            r@ == self@,
    {
        SlotKey { ffi: self.ffi, _tag: PhantomData }
    }
}

impl<Tag> Copy for SlotKey<Tag> {
}

impl<Tag> PartialEq for SlotKey<Tag> {
    fn eq(&self, other: &Self) -> (r: bool) {
        self.ffi == other.ffi
    }
}

impl<Tag> vstd::std_specs::cmp::PartialEqSpecImpl for SlotKey<Tag> {
    open spec fn obeys_eq_spec() -> bool {
        true
    }

    open spec fn eq_spec(&self, other: &Self) -> bool {
        self@ == other@
    }
}

impl<Tag> Eq for SlotKey<Tag> {
}

impl<Tag> Default for SlotKey<Tag> {
    /// Keys start out null, as slotmap's keys do.
    fn default() -> (r: Self)
        ensures
            r@ == 0x1_ffff_ffff,
            r.spec_is_null(),
    {
        Self::null()
    }
}

/// Nullness reads the slot index alone: two keys that differ only in their
/// version are both null or both not.
pub proof fn lemma_null_ignores_version<Tag>(a: SlotKey<Tag>, b: SlotKey<Tag>)
    requires
        a@ % 0x1_0000_0000 == b@ % 0x1_0000_0000,
    ensures
        a.spec_is_null() == b.spec_is_null(),
{
}

} // verus!
