//! A place to keep the bytes of each source that do not yet make a line.

use vstd::prelude::*;

use crate::reassembly::lines_view;

verus! {

/// In charge of providing a place where to store not-fully-processed logs
///
/// Since bytes come in chunks that do not have to contain a full line,
/// partial storage is needed: one slot for each source, numbered in the
/// order in which the slots were made.
pub struct RawLogStorageManager {
    storage: Vec<Vec<u8>>,
}

impl View for RawLogStorageManager {
    type V = Seq<Seq<u8>>;

    closed spec fn view(&self) -> Seq<Seq<u8>> {
        lines_view(self.storage@)
    }
}

impl RawLogStorageManager {
    /// The slot that `id` names, where it names one.
    pub open spec fn slot(&self, id: i32) -> Option<int> {
        if 0 <= id < self@.len() {
            Some(id as int)
        } else {
            None
        }
    }

    /// Makes a storage without slots.
    pub fn new() -> (r: RawLogStorageManager)
        ensures
            r@ == Seq::<Seq<u8>>::empty(),
    {
        let r = RawLogStorageManager { storage: Vec::new() };
        assert(r@ =~= Seq::<Seq<u8>>::empty());
        r
    }

    /// Hands out the bytes in the slot `id` and leaves the slot empty;
    /// `None` where there is no such slot.
    pub fn take_bytes(&mut self, id: i32) -> (r: Option<Vec<u8>>)
        ensures
            match old(self).slot(id) {
                Some(at) => r matches Some(bytes) && bytes@ == old(self)@[at] && final(self)@
                    == old(self)@.update(at, Seq::empty()),
                None => r is None && final(self)@ == old(self)@,
            },
    {
        if id < 0 {
            return None;
        }
        let at = id as usize;
        if at >= self.storage.len() {
            return None;
        }
        let mut bytes: Vec<u8> = Vec::new();
        std::mem::swap(&mut bytes, &mut self.storage[at]);
        assert(self@ =~= old(self)@.update(at as int, Seq::empty()));
        assert(old(self)@[at as int] == old(self).storage@[at as int]@);
        Some(bytes)
    }

    /// Puts `bytes` into the slot `id`; does nothing where there is no
    /// such slot.
    pub fn set_bytes(&mut self, id: i32, bytes: Vec<u8>)
        ensures
            match old(self).slot(id) {
                Some(at) => final(self)@ == old(self)@.update(at, bytes@),
                None => final(self)@ == old(self)@,
            },
    {
        if id < 0 {
            return ;
        }
        let at = id as usize;
        if at >= self.storage.len() {
            return ;
        }
        self.storage[at] = bytes;
        assert(self@ =~= old(self)@.update(at as int, bytes@));
    }

    /// Makes a new, empty slot and tells its number.
    pub fn alloc_new_vector(&mut self) -> (r: i32)
        requires
            old(self)@.len() <= i32::MAX,
        ensures
            r == old(self)@.len(),
            final(self)@ == old(self)@.push(Seq::empty()),
    {
        let ret = self.storage.len();
        self.storage.push(Vec::new());
        assert(self@ =~= old(self)@.push(Seq::empty()));
        ret as i32
    }
}

} // verus!
