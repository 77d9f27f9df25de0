//! The source text of a table of property names.
//!
//! The tables that give each property code of a class its name are written
//! as `phf_map!` items. This module writes the text of such an item from the
//! codes and names of a class.

use vstd::prelude::*;
use vstd::string::StringExecFns;

verus! {

/// One property of a class: its code, as it is written in source text
/// (`0x80`), and its name.
#[derive(Debug, PartialEq, Eq)]
pub struct NameEntry {
    /// The property code, as a number in source text.
    pub epc: String,
    /// The name of the property.
    pub name: String,
}

/// The line of the table for one property.
pub open spec fn entry_line(epc: Seq<char>, name: Seq<char>) -> Seq<char> {
    "    "@ + epc + "u8 => \""@ + name + "\",\n"@
}

/// The lines of the table, one for each property, in order.
pub open spec fn entry_lines(entries: Seq<NameEntry>) -> Seq<char>
    decreases entries.len(),
{
    if entries.len() == 0 {
        Seq::empty()
    } else {
        entry_lines(entries.drop_last()) + entry_line(entries.last().epc@, entries.last().name@)
    }
}

/// The text of the table named `short_name`.
pub open spec fn table_text(short_name: Seq<char>, entries: Seq<NameEntry>) -> Seq<char> {
    "pub static "@ + short_name + ": phf::Map<u8, &'static str> = phf_map! {\n"@ + entry_lines(
        entries,
    ) + "};\n"@
}

/// The text of the table named `short_name` that gives each code of
/// `entries` its name.
pub fn phf_table(short_name: &str, entries: &[NameEntry]) -> (r: String)
    ensures
        r@ == table_text(short_name@, entries@),
{
    let mut out: String = String::from_str("pub static ");
    out.append(short_name);
    out.append(": phf::Map<u8, &'static str> = phf_map! {\n");
    let ghost head = out@;
    let mut i: usize = 0;
    assert(entries@.take(0) =~= Seq::<NameEntry>::empty());
    assert(head + Seq::<char>::empty() =~= head);
    while i < entries.len()
        invariant
            i <= entries.len(),
            out@ == head + entry_lines(entries@.take(i as int)),
        decreases entries.len() - i,
    {
        let ghost before = out@;
        out.append("    ");
        out.append(entries[i].epc.as_str());
        out.append("u8 => \"");
        out.append(entries[i].name.as_str());
        out.append("\",\n");
        proof {
            let done = entries@.take(i + 1);
            assert(done.drop_last() =~= entries@.take(i as int));
            assert(done.last() == entries@[i as int]);
            assert(out@ =~= before + entry_line(entries@[i as int].epc@, entries@[i as int].name@));
            assert(out@ =~= head + entry_lines(done));
        }
        i = i + 1;
    }
    assert(entries@.take(i as int) =~= entries@);
    out.append("};\n");
    out
}

} // verus!
