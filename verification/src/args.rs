//! The pre-validated argument lookup the chain builder consumes.
//! Flag-to-typed-value conversion is the argument parser collaborator's
//! work; it hands the orchestration a sequence of identifiers, in
//! command-line left-to-right order, each with its typed values and
//! whether the user supplied it explicitly.

use vstd::prelude::*;
use crate::color::ColorSpace;

verus! {

/// One typed argument value, as the argument parser validated it.
/// Floating-point values are carried as their IEEE 754 bit patterns.
#[derive(Clone, PartialEq, Debug)]
pub enum ArgValue {
    Unsigned(usize),
    Unsigned16(u16),
    Unsigned8(u8),
    RealBits(u32),
    Text(String),
    Color(ColorSpace),
}

/// One argument identifier with its values. `from_command_line` is true
/// only for identifiers the user supplied explicitly; defaults and
/// argument-group markers carry false and are skipped by the chain
/// builder.
#[derive(Clone, PartialEq, Debug)]
pub struct CmdEntry {
    pub id: String,
    pub from_command_line: bool,
    pub values: Vec<ArgValue>,
}

/// The validated argument lookup, in command-line left-to-right order.
#[derive(Clone, PartialEq, Debug)]
pub struct CmdArgs {
    pub entries: Vec<CmdEntry>,
}

/// The first entry carrying the identifier, if any.
pub open spec fn spec_find(entries: Seq<CmdEntry>, id: Seq<char>) -> Option<CmdEntry>
    decreases entries.len(),
{
    if entries.len() == 0 {
        None
    } else if entries.first().id@ == id {
        Some(entries.first())
    } else {
        spec_find(entries.drop_first(), id)
    }
}

/// The value at position `i` of the identifier's entry, if the identifier
/// is present and has that many values.
pub open spec fn spec_value_at(args: CmdArgs, id: Seq<char>, i: int) -> Option<ArgValue> {
    match spec_find(args.entries@, id) {
        Some(e) => if 0 <= i < e.values@.len() {
            Some(e.values@[i])
        } else {
            None
        },
        None => None,
    }
}

impl CmdArgs {
    /// Looks up the first entry for an identifier.
    pub fn lookup(&self, id: &str) -> (r: Option<&CmdEntry>)
        ensures
            match r {
                Some(e) => spec_find(self.entries@, id@) == Some(*e),
                None => spec_find(self.entries@, id@) is None,
            },
    {
        let ghost all = self.entries@;
        proof {
            assert(all.subrange(0, all.len() as int) =~= all);
        }
        let mut i: usize = 0;
        loop
            invariant
                all == self.entries@,
                0 <= i <= all.len(),
                spec_find(all, id@) == spec_find(all.subrange(i as int, all.len() as int), id@),
            decreases all.len() - i,
        {
            if i >= self.entries.len() {
                proof {
                    assert(all.subrange(i as int, all.len() as int) =~= Seq::<CmdEntry>::empty());
                }
                return None;
            }
            let entry = &self.entries[i];
            proof {
                let tail = all.subrange(i as int, all.len() as int);
                assert(tail.first() == all[i as int]);
                assert(tail.drop_first() =~= all.subrange(i as int + 1, all.len() as int));
            }
            if crate::text::str_eq(entry.id.as_str(), id) {
                return Some(entry);
            }
            i = i + 1;
        }
    }

    /// Reads the value at position `i` of an identifier's entry.
    pub fn value_at(&self, id: &str, i: usize) -> (r: Option<&ArgValue>)
        ensures
            match r {
                Some(v) => spec_value_at(*self, id@, i as int) == Some(*v),
                None => spec_value_at(*self, id@, i as int) is None,
            },
    {
        match self.lookup(id) {
            Some(e) => {
                if i < e.values.len() {
                    Some(&e.values[i])
                } else {
                    None
                }
            },
            None => None,
        }
    }
}

} // verus!
