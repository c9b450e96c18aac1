//! The bytes under edit and whether they differ from what storage holds.

use vstd::prelude::*;

verus! {

/// A write to storage that did not go through, with the reason the front end
/// was given for it.
#[derive(Debug)]
pub struct SaveError {
    pub reason: String,
}

/// The file's bytes, index-addressable, and a flag that is set by every write
/// and cleared by a successful save.
pub struct Buffer {
    data: Vec<u8>,
    dirty: bool,
}

impl View for Buffer {
    type V = Seq<u8>;

    closed spec fn view(&self) -> Seq<u8> {
        self.data@
    }
}

impl Buffer {
    /// Whether a byte has been written since the last successful save.
    pub closed spec fn dirty(&self) -> bool {
        self.dirty
    }

    /// A clean buffer over `data`.
    pub fn new(data: Vec<u8>) -> (buffer: Buffer)
        ensures
            buffer@ == data@,
            !buffer.dirty(),
    {
        Buffer { data, dirty: false }
    }

    /// The number of bytes held.
    pub fn len(&self) -> (n: usize)
        ensures
            n == self@.len(),
    {
        self.data.len()
    }

    /// Overwrites the byte at `index`. The buffer is dirty afterwards even
    /// when `data` is the byte that was there: writes are not compared.
    pub fn update(&mut self, index: usize, data: u8)
        requires
            index < old(self)@.len(),
        ensures
            final(self)@ == old(self)@.update(index as int, data),
            final(self).dirty(),
    {
        self.dirty = true;
        self.data.set(index, data);
    }

    /// Records how writing `self.data()` to storage went. A success clears
    /// the dirty flag; a failure leaves flag and bytes as they were and is
    /// handed back.
    pub fn save(&mut self, stored: Result<(), SaveError>) -> (result: Result<(), SaveError>)
        ensures
            result == stored,
            final(self)@ == old(self)@,
            final(self).dirty() == (stored is Err && old(self).dirty()),
    {
        if stored.is_ok() {
            self.dirty = false;
        }
        stored
    }

    pub fn is_dirty(&self) -> (dirty: bool)
        ensures
            dirty == self.dirty(),
    {
        self.dirty
    }

    /// The byte at `index`.
    pub fn get(&self, index: usize) -> (byte: u8)
        requires
            index < self@.len(),
        ensures
            byte == self@[index as int],
    {
        self.data[index]
    }

    /// All bytes, in order: what a save writes.
    pub fn data(&self) -> (bytes: &Vec<u8>)
        ensures
            bytes@ == self@,
    {
        &self.data
    }
}

impl vstd::std_specs::core::IndexSpecImpl<usize> for Buffer {
    open spec fn index_req(&self, index: &usize) -> bool {
        *index < self@.len()
    }
}

impl core::ops::Index<usize> for Buffer {
    type Output = u8;

    /// `buffer[index]`, for an index below the length.
    fn index(&self, index: usize) -> (byte: &u8)
        ensures
            *byte == self@[index as int],
    {
        &self.data[index]
    }
}

} // verus!
