//! The uid/gid mapping written into a new user namespace: ordered
//! `(from, to, length)` entries, rendered in the kernel's map-file format of
//! one `to from length` line per entry.

use vstd::prelude::*;
use crate::dec::{dec_chars, dec_string};

verus! {

/// One range of the identity map.
#[derive(Clone, Copy, Debug, PartialEq, Eq, Structural)]
pub struct IdMapEntry {
    pub from: u32,
    pub to: u32,
    pub length: u32,
}

/// Accumulates identity-map entries and renders the map file.
pub struct IdMapFactory {
    entries: Vec<IdMapEntry>,
}

/// The line an entry renders to: `to from length`, newline-terminated.
pub open spec fn entry_line(e: IdMapEntry) -> Seq<char> {
    dec_chars(e.to as nat) + " "@ + dec_chars(e.from as nat) + " "@ + dec_chars(e.length as nat)
        + "\n"@
}

/// The whole map file: the entries' lines in order.
pub open spec fn map_file_chars(entries: Seq<IdMapEntry>) -> Seq<char>
    decreases entries.len(),
{
    if entries.len() == 0 {
        Seq::empty()
    } else {
        map_file_chars(entries.drop_last()) + entry_line(entries.last())
    }
}

impl IdMapFactory {
    /// The entries accumulated so far, in order.
    pub closed spec fn view(&self) -> Seq<IdMapEntry> {
        self.entries@
    }

    /// An empty map.
    pub fn new() -> (r: Self)
        ensures
            r@ == Seq::<IdMapEntry>::empty(),
    {
        IdMapFactory { entries: Vec::new() }
    }

    /// Appends a single-id range mapping `from` to `to`.
    pub fn entry(&mut self, from: u32, to: u32)
        ensures
            final(self)@ == old(self)@.push(IdMapEntry { from, to, length: 1 }),
    {
        self.entries.push(IdMapEntry { from, to, length: 1 });
    }

    /// Renders the map file to write: nothing when no entry was added — an
    /// empty map asks for no file operation at all — and otherwise the
    /// entries' lines.
    pub fn render(self) -> (r: Option<String>)
        ensures
            self@.len() == 0 <==> r is None,
            r is Some ==> r->0@ == map_file_chars(self@),
    {
        if self.entries.len() == 0 {
            return None;
        }
        let mut out = String::new();
        let mut i: usize = 0;
        let n = self.entries.len();
        while i < n
            invariant
                0 <= i <= n,
                n == self.entries@.len(),
                out@ == map_file_chars(self.entries@.subrange(0, i as int)),
            decreases n - i,
        {
            let e = &self.entries[i];
            out.append(dec_string(e.to as u64).as_str());
            out.append(" ");
            out.append(dec_string(e.from as u64).as_str());
            out.append(" ");
            out.append(dec_string(e.length as u64).as_str());
            out.append("\n");
            i += 1;
            proof {
                let pref = self.entries@.subrange(0, i as int);
                assert(pref.drop_last() =~= self.entries@.subrange(0, i - 1));
                assert(pref.last() == self.entries@[i - 1]);
                assert(out@ =~= map_file_chars(pref));
            }
        }
        proof {
            assert(self.entries@.subrange(0, n as int) =~= self.entries@);
        }
        Some(out)
    }
}

} // verus!
