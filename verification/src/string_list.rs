use vstd::prelude::*;

verus! {

/// Reads a list of zero-terminated strings out of the game's memory, two
/// bytes at a time: the list ends where the two bytes read equal `ending`;
/// otherwise a zero byte ends the current string, and any other byte is the
/// next character of it.
pub struct StringListReader {
    /// The two bytes that end the list.
    pub ending: Vec<u8>,
    /// Where the next read starts.
    pub address: usize,
    /// The number given to the current string.
    pub index: usize,
    /// The characters of the current string so far.
    pub current: Vec<u8>,
    /// The strings read so far, with their numbers.
    pub entries: Vec<(usize, Vec<u8>)>,
}

/// True when both byte vectors hold the same bytes.
pub fn same_bytes(a: &Vec<u8>, b: &Vec<u8>) -> (same: bool)
    ensures
        same == (a@ == b@),
{
    if a.len() != b.len() {
        return false;
    }
    let n = a.len();
    for i in 0..n
        invariant
            n == a@.len(),
            n == b@.len(),
            forall|j: int| 0 <= j < i ==> a@[j] == b@[j],
    {
        if a[i] != b[i] {
            return false;
        }
    }
    assert(a@ =~= b@);
    true
}

impl StringListReader {
    /// Start reading at `address`, numbering the strings from `first_index`.
    pub fn new(address: usize, first_index: usize, ending: Vec<u8>) -> (reader: StringListReader)
        ensures
            reader.address == address,
            reader.index == first_index,
            reader.ending == ending,
            reader.current@ == Seq::<u8>::empty(),
            reader.entries@ == Seq::<(usize, Vec<u8>)>::empty(),
    {
        StringListReader {
            ending,
            address,
            index: first_index,
            current: Vec::new(),
            entries: Vec::new(),
        }
    }

    /// Take in the bytes read at `address`. Returns `true` when they end the
    /// list, and then changes nothing.
    pub fn step(&mut self, read: &Vec<u8>) -> (finished: bool)
        requires
            read@.len() >= 1,
            old(self).address < usize::MAX,
            old(self).index < usize::MAX,
        ensures
            finished == (read@ == old(self).ending@),
            finished ==> *final(self) == *old(self),
            !finished && read@[0] == 0 ==> final(self).entries@ == old(self).entries@.push(
                (old(self).index, old(self).current),
            ) && final(self).current@ == Seq::<u8>::empty() && final(self).index == old(
                self,
            ).index + 1 && final(self).address == old(self).address + 1 && final(self).ending
                == old(self).ending,
            !finished && read@[0] != 0 ==> final(self).current@ == old(self).current@.push(
                read@[0],
            ) && final(self).entries == old(self).entries && final(self).index == old(
                self,
            ).index && final(self).address == old(self).address + 1 && final(self).ending
                == old(self).ending,
    {
        if same_bytes(read, &self.ending) {
            return true;
        }
        if read[0] == 0 {
            let mut finished_string: Vec<u8> = Vec::new();
            std::mem::swap(&mut finished_string, &mut self.current);
            self.entries.push((self.index, finished_string));
            self.index = self.index + 1;
            self.address = self.address + 1;
        } else {
            self.current.push(read[0]);
            self.address = self.address + 1;
        }
        false
    }
}

} // verus!
