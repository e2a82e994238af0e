//! The run configuration that the operator edits: the experiment, the run number, a
//! description, and named fields logged with every run, kept in the order of their names.
use crate::text::{decimal, push_decimal, push_str, same_text};
use std::ops::Deref;
use vstd::prelude::*;
use vstd::string::*;

verus! {

/// Whether text `a` orders before text `b`, comparing from position `i` on, character by
/// character by code point; a proper prefix orders first.
pub open spec fn less_from(a: Seq<char>, b: Seq<char>, i: int) -> bool
    decreases a.len() - i,
{
    if i < 0 || i >= a.len() {
        0 <= i < b.len()
    } else if i >= b.len() {
        false
    } else if a[i] != b[i] {
        (a[i] as u32) < (b[i] as u32)
    } else {
        less_from(a, b, i + 1)
    }
}

/// Whether text `a` orders before text `b`.
pub open spec fn key_less(a: Seq<char>, b: Seq<char>) -> bool {
    less_from(a, b, 0)
}

/// Whether text `a` orders before text `b`.
pub fn text_less(a: &str, b: &str) -> (r: bool)
    ensures
        r == key_less(a@, b@),
{
    let n = a.unicode_len();
    let m = b.unicode_len();
    let mut i: usize = 0;
    while i < n && i < m
        invariant
            n == a@.len(),
            m == b@.len(),
            i <= n,
            i <= m,
            less_from(a@, b@, 0) == less_from(a@, b@, i as int),
        decreases n - i,
    {
        let ca = a.get_char(i);
        let cb = b.get_char(i);
        if ca != cb {
            return (ca as u32) < (cb as u32);
        }
        i = i + 1;
    }
    i < m
}

/// The names of the fields that a new configuration holds.
pub open spec fn default_field_names() -> Seq<Seq<char>> {
    seq![
        "B-Field (T)"@,
        "Beam"@,
        "E-Drift (V)"@,
        "E-Trans (V)"@,
        "Energy (MeV/U)"@,
        "GET Freq. (MHz)"@,
        "Pressure (Torr)"@,
        "Target Gas"@,
        "V_Cathode (kV)"@,
        "V_MM (V)"@,
        "V_THGEM (V)"@,
    ]
}

/// The position at which a new field named `key` goes: before the first field whose name does
/// not order before it.
pub open spec fn insert_position(entries: Seq<(Seq<char>, Seq<char>)>, key: Seq<char>) -> int
    decreases entries.len(),
{
    if entries.len() == 0 {
        0
    } else if !key_less(entries[0].0, key) {
        0
    } else {
        1 + insert_position(entries.drop_first(), key)
    }
}

/// The fields after setting field `key` to `value`: an existing field of that name takes the
/// value, else a new field is inserted at its position.
pub open spec fn with_field(
    entries: Seq<(Seq<char>, Seq<char>)>,
    key: Seq<char>,
    value: Seq<char>,
) -> Seq<(Seq<char>, Seq<char>)> {
    let p = insert_position(entries, key);
    if p < entries.len() && entries[p].0 == key {
        entries.update(p, (key, value))
    } else {
        entries.insert(p, (key, value))
    }
}

/// A run number in decimal, with a minus sign when negative.
pub open spec fn signed_decimal(n: int) -> Seq<char> {
    if n < 0 {
        "-"@ + decimal((-n) as nat)
    } else {
        decimal(n as nat)
    }
}

/// The names of the fields, each after a comma.
pub open spec fn comma_keys(entries: Seq<(Seq<char>, Seq<char>)>) -> Seq<char>
    decreases entries.len(),
{
    if entries.len() == 0 {
        Seq::empty()
    } else {
        comma_keys(entries.drop_last()) + ","@ + entries.last().0
    }
}

/// The values of the fields, each after a comma.
pub open spec fn comma_values(entries: Seq<(Seq<char>, Seq<char>)>) -> Seq<char>
    decreases entries.len(),
{
    if entries.len() == 0 {
        Seq::empty()
    } else {
        comma_values(entries.drop_last()) + ","@ + entries.last().1
    }
}

/// The header line of the run log of an experiment.
pub open spec fn table_header_text(entries: Seq<(Seq<char>, Seq<char>)>) -> Seq<char> {
    "Run,Note,Duration"@ + comma_keys(entries) + "\n"@
}

/// The line that the run log records for a run.
pub open spec fn table_row_text(
    run_number: i32,
    description: Seq<char>,
    seconds: u64,
    entries: Seq<(Seq<char>, Seq<char>)>,
) -> Seq<char> {
    signed_decimal(run_number as int) + ","@ + description + ","@ + decimal(seconds as nat)
        + comma_values(entries) + "\n"@
}

/// The run configuration.
#[derive(Debug)]
pub struct Config {
    /// Where the configuration is saved.
    pub path: String,
    pub experiment: String,
    pub run_number: i32,
    pub description: String,
    /// The named fields, in the order of their names.
    pub fields: Vec<(String, String)>,
}

impl Config {
    /// The named fields, in the order of their names.
    pub open spec fn entries(&self) -> Seq<(Seq<char>, Seq<char>)> {
        self.fields@.map_values(|e: (String, String)| (e.0@, e.1@))
    }

    /// A configuration for experiment "Exp", run 0, with every default field empty.
    pub fn new() -> (r: Self)
        ensures
            r.path@ == "example.yml"@,
            r.experiment@ == "Exp"@,
            r.run_number == 0,
            r.description@ == "Write here"@,
            r.entries() == default_field_names().map_values(|k: Seq<char>| (k, Seq::<char>::empty())),
    {
        let mut fields: Vec<(String, String)> = Vec::new();
        fields.push((String::from_str("B-Field (T)"), String::new()));
        fields.push((String::from_str("Beam"), String::new()));
        fields.push((String::from_str("E-Drift (V)"), String::new()));
        fields.push((String::from_str("E-Trans (V)"), String::new()));
        fields.push((String::from_str("Energy (MeV/U)"), String::new()));
        fields.push((String::from_str("GET Freq. (MHz)"), String::new()));
        fields.push((String::from_str("Pressure (Torr)"), String::new()));
        fields.push((String::from_str("Target Gas"), String::new()));
        fields.push((String::from_str("V_Cathode (kV)"), String::new()));
        fields.push((String::from_str("V_MM (V)"), String::new()));
        fields.push((String::from_str("V_THGEM (V)"), String::new()));
        let r = Config {
            path: String::from_str("example.yml"),
            experiment: String::from_str("Exp"),
            run_number: 0,
            description: String::from_str("Write here"),
            fields,
        };
        assert(r.entries() =~= default_field_names().map_values(
            |k: Seq<char>| (k, Seq::<char>::empty()),
        ));
        r
    }

    /// Sets field `field` to `value`: an existing field of that name takes the value, else a
    /// new field is inserted before the first field whose name does not order before it.
    pub fn add_field(&mut self, field: String, value: String)
        ensures
            final(self).entries() == with_field(old(self).entries(), field@, value@),
            final(self).path == old(self).path,
            final(self).experiment == old(self).experiment,
            final(self).run_number == old(self).run_number,
            final(self).description == old(self).description,
    {
        let ghost entries = self.entries();
        assert(entries.subrange(0, entries.len() as int) =~= entries);
        let mut p: usize = 0;
        while p < self.fields.len() && text_less(self.fields[p].0.deref(), field.deref())
            invariant
                p <= self.fields@.len(),
                entries == self.entries(),
                self.fields == old(self).fields,
                insert_position(entries, field@) == p + insert_position(
                    entries.subrange(p as int, entries.len() as int),
                    field@,
                ),
            decreases self.fields@.len() - p,
        {
            proof {
                let rest = entries.subrange(p as int, entries.len() as int);
                assert(rest.drop_first() =~= entries.subrange(p + 1, entries.len() as int));
            }
            p = p + 1;
        }
        proof {
            let rest = entries.subrange(p as int, entries.len() as int);
            if p < entries.len() {
                assert(rest[0] == entries[p as int]);
            }
            assert(insert_position(rest, field@) == 0);
        }
        if p < self.fields.len() && same_text(self.fields[p].0.deref(), field.deref()) {
            self.fields.set(p, (field, value));
        } else {
            self.fields.insert(p, (field, value));
        }
        assert(self.entries() =~= with_field(entries, field@, value@));
    }

    /// The named fields, in the order of their names.
    pub fn fields(&self) -> (r: &Vec<(String, String)>)
        ensures
            r@.map_values(|e: (String, String)| (e.0@, e.1@)) == self.entries(),
    {
        &self.fields
    }

    /// The header line of the run log: the fixed columns, then the names of the fields.
    pub fn table_header(&self) -> (r: String)
        ensures
            r@ == table_header_text(self.entries()),
    {
        let ghost entries = self.entries();
        let mut r = String::new();
        push_str(&mut r, "Run,Note,Duration");
        let mut i: usize = 0;
        while i < self.fields.len()
            invariant
                i <= self.fields@.len(),
                entries == self.entries(),
                r@ == "Run,Note,Duration"@ + comma_keys(entries.subrange(0, i as int)),
            decreases self.fields@.len() - i,
        {
            proof {
                assert(entries.subrange(0, i + 1).drop_last() =~= entries.subrange(0, i as int));
            }
            push_str(&mut r, ",");
            push_str(&mut r, self.fields[i].0.deref());
            i = i + 1;
            assert(r@ =~= "Run,Note,Duration"@ + comma_keys(entries.subrange(0, i as int)));
        }
        push_str(&mut r, "\n");
        assert(entries.subrange(0, entries.len() as int) =~= entries);
        assert(r@ =~= table_header_text(entries));
        r
    }

    /// The line that the run log records for this run, which lasted `seconds`: the run number,
    /// the description, the duration, then the values of the fields.
    pub fn table_row(&self, seconds: u64) -> (r: String)
        ensures
            r@ == table_row_text(self.run_number, self.description@, seconds, self.entries()),
    {
        let ghost entries = self.entries();
        let mut r = String::new();
        if self.run_number < 0 {
            push_str(&mut r, "-");
            push_decimal(&mut r, (0 - (self.run_number as i64)) as u64);
        } else {
            push_decimal(&mut r, self.run_number as u64);
        }
        assert(r@ =~= signed_decimal(self.run_number as int));
        push_str(&mut r, ",");
        push_str(&mut r, self.description.deref());
        push_str(&mut r, ",");
        push_decimal(&mut r, seconds);
        let ghost head = r@;
        let mut i: usize = 0;
        while i < self.fields.len()
            invariant
                i <= self.fields@.len(),
                entries == self.entries(),
                r@ == head + comma_values(entries.subrange(0, i as int)),
            decreases self.fields@.len() - i,
        {
            proof {
                assert(entries.subrange(0, i + 1).drop_last() =~= entries.subrange(0, i as int));
            }
            push_str(&mut r, ",");
            push_str(&mut r, self.fields[i].1.deref());
            i = i + 1;
            assert(r@ =~= head + comma_values(entries.subrange(0, i as int)));
        }
        push_str(&mut r, "\n");
        assert(entries.subrange(0, entries.len() as int) =~= entries);
        assert(r@ =~= table_row_text(self.run_number, self.description@, seconds, entries));
        r
    }
}

} // verus!
