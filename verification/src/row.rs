//! The modeled driver row: what the marshaling layer reads of a backend's
//! raw rows, reduced to plain values.

use vstd::prelude::*;
use crate::sqltext::{dec2, dec4, push_u64_pad2, push_u64_pad4};

verus! {

/// A calendar date as plain values, as a backend hands it back.
#[derive(Clone, Copy, Debug, PartialEq, Eq, Structural)]
pub struct SimpleDate {
    pub year: u16,
    pub month: u8,
    pub day: u8,
}

/// The display text `YYYY-MM-DD` of a date.
pub open spec fn date_text(d: SimpleDate) -> Seq<char> {
    dec4(d.year as nat) + "-"@ + dec2(d.month as nat) + "-"@ + dec2(d.day as nat)
}

impl SimpleDate {
    /// Renders the date as `YYYY-MM-DD`.
    pub fn render(&self) -> (s: String)
        ensures
            s@ == date_text(*self),
    {
        let mut out = String::new();
        push_u64_pad4(&mut out, self.year as u64);
        out.append("-");
        push_u64_pad2(&mut out, self.month as u64);
        out.append("-");
        push_u64_pad2(&mut out, self.day as u64);
        proof {
            assert(out@ =~= date_text(*self));
        }
        out
    }
}

/// One cell value of a driver row, reduced to plain data. A
/// floating-point value is carried by its IEEE-754 bit pattern.
#[derive(Clone, Debug)]
pub enum CellValue {
    Null,
    UInt(u64),
    Int(i64),
    Float(u64),
    Text(String),
    Date(SimpleDate),
}

/// One named cell of a driver row.
#[derive(Clone, Debug)]
pub struct RowEntry {
    pub name: String,
    pub value: CellValue,
}

/// One row handed back by a backend: named cells in select-list order.
#[derive(Clone, Debug)]
pub struct DataRow {
    pub entries: Vec<RowEntry>,
}

/// The value of the first cell named `name`, if any.
pub open spec fn lookup_cells(entries: Seq<RowEntry>, name: Seq<char>) -> Option<CellValue>
    decreases entries.len(),
{
    if entries.len() == 0 {
        None
    } else if entries[0].name@ == name {
        Some(entries[0].value)
    } else {
        lookup_cells(entries.drop_first(), name)
    }
}

impl DataRow {
    /// The value of the first cell named `name`, if any.
    pub open spec fn lookup(self, name: Seq<char>) -> Option<CellValue> {
        lookup_cells(self.entries@, name)
    }

    /// A row with no cells.
    pub fn new() -> (r: DataRow)
        ensures
            r.entries@ == Seq::<RowEntry>::empty(),
    {
        DataRow { entries: Vec::new() }
    }

    /// Appends one named cell.
    pub fn add_cell(&mut self, name: String, value: CellValue)
        ensures
            final(self).entries@ == old(self).entries@.push(RowEntry { name, value }),
    {
        self.entries.push(RowEntry { name, value });
    }

    /// Finds the first cell named `name`.
    pub fn get(&self, name: &String) -> (r: Option<&CellValue>)
        ensures
            match r {
                Some(c) => self.lookup(name@) == Some(*c),
                None => self.lookup(name@) is None,
            },
    {
        let mut i: usize = 0;
        proof {
            assert(self.entries@.skip(0) =~= self.entries@);
        }
        while i < self.entries.len()
            invariant
                0 <= i <= self.entries@.len(),
                lookup_cells(self.entries@, name@) == lookup_cells(
                    self.entries@.skip(i as int),
                    name@,
                ),
            decreases self.entries@.len() - i,
        {
            proof {
                assert(self.entries@.skip(i as int)[0] == self.entries@[i as int]);
            }
            if self.entries[i].name == *name {
                return Some(&self.entries[i].value);
            }
            proof {
                assert(self.entries@.skip(i as int).drop_first() =~= self.entries@.skip(i + 1));
            }
            i = i + 1;
        }
        proof {
            assert(self.entries@.skip(self.entries@.len() as int) =~= Seq::<RowEntry>::empty());
        }
        None
    }
}

} // verus!
