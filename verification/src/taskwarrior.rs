//! Assembly of tracker command lines.
//!
//! The engine never spawns a process itself: it only builds a description of
//! the invocation — the program and its argument list — and hands it to the
//! driver. The builders here mirror the tracker's export and modify calls.

use vstd::prelude::*;
use vstd::string::StringExecFns;

verus! {

/// A program invocation the driver can run: the program name and its
/// arguments, in order.
#[derive(Clone, Debug)]
pub struct CommandLine {
    pub program: String,
    pub args: Vec<String>,
}

/// Handle on the external tracker: the name or path of its binary.
#[derive(Clone, Debug)]
pub struct Taskwarrior {
    pub binary: String,
}

/// The argument that pins one urgency coefficient for an export call.
pub open spec fn coefficient_arg(key: Seq<char>, value: Seq<char>) -> Seq<char> {
    "rc.urgency."@ + key + ".coefficient="@ + value
}

/// Whether some coefficient override for `key` is present.
pub open spec fn has_coeff_key(s: Seq<(String, String)>, key: Seq<char>) -> bool {
    exists|i: int| 0 <= i < s.len() && (#[trigger] s[i]).0@ == key
}

/// No coefficient key occurs twice: overrides are keyed by coefficient
/// name, as a map would hold them.
pub open spec fn coeff_keys_unique(s: Seq<(String, String)>) -> bool {
    forall|i: int, j: int| 0 <= i < j < s.len() ==> (#[trigger] s[i]).0@ != (#[trigger] s[j]).0@
}

impl Taskwarrior {
    pub fn new(binary: String) -> (tw: Taskwarrior)
        ensures
            tw.binary == binary,
    {
        Taskwarrior { binary }
    }

    /// Start building an export (candidate fetch) invocation.
    pub fn export(&self) -> (b: ExportBuilder)
        ensures
            b.binary@ == self.binary@,
            b.coefficients@ == Seq::<(String, String)>::empty(),
            b.filters@ == Seq::<String>::empty(),
    {
        ExportBuilder {
            binary: self.binary.clone(),
            coefficients: Vec::new(),
            filters: Vec::new(),
        }
    }

    /// The invocation that marks one task, named by its stable identifier,
    /// as done.
    pub fn mark_done_command(&self, id: &str) -> (c: CommandLine)
        ensures
            c.program@ == self.binary@,
            c.args@.len() == 2,
            c.args@[0]@ == id@,
            c.args@[1]@ == "done"@,
    {
        let mut args: Vec<String> = Vec::new();
        args.push(id.to_owned());
        args.push("done".to_owned());
        CommandLine { program: self.binary.clone(), args }
    }

    /// Start building a modify invocation.
    pub fn modify(&self) -> (b: ModifyBuilder)
        ensures
            b.binary@ == self.binary@,
            b.subjects@ == Seq::<String>::empty(),
            b.mods@ == Seq::<String>::empty(),
    {
        ModifyBuilder { binary: self.binary.clone(), subjects: Vec::new(), mods: Vec::new() }
    }
}

/// Builder for the tracker's export call: urgency-coefficient overrides
/// (keyed by coefficient name) first, then filters, then the `export`
/// subcommand.
#[derive(Debug)]
pub struct ExportBuilder {
    pub binary: String,
    pub coefficients: Vec<(String, String)>,
    pub filters: Vec<String>,
}

/// The position of the override for `key`, if one is present.
fn find_coeff_index(v: &Vec<(String, String)>, key: &String) -> (r: Option<usize>)
    ensures
        r matches Some(i) ==> i < v@.len() && v@[i as int].0@ == key@,
        r is None ==> forall|j: int| 0 <= j < v@.len() ==> (#[trigger] v@[j]).0@ != key@,
{
    let n = v.len();
    let mut i: usize = 0;
    while i < n
        invariant
            n == v@.len(),
            i <= n,
            forall|j: int| 0 <= j < i ==> (#[trigger] v@[j]).0@ != key@,
        decreases n - i,
    {
        if v[i].0 == *key {
            return Some(i);
        }
        i = i + 1;
    }
    None
}

impl ExportBuilder {
    /// Override one urgency coefficient for this call, keyed by
    /// coefficient name: a repeated key replaces the earlier value in
    /// place (last write wins, order otherwise kept), so repeating the
    /// same override changes nothing further. `value` is the
    /// coefficient's decimal rendering.
    pub fn with_urgency_coefficient(self, key: &str, value: &str) -> (b: Self)
        requires
            coeff_keys_unique(self.coefficients@),
        ensures
            coeff_keys_unique(b.coefficients@),
            b.binary@ == self.binary@,
            b.filters@ == self.filters@,
            has_coeff_key(b.coefficients@, key@),
            !has_coeff_key(self.coefficients@, key@) ==> {
                &&& b.coefficients@.len() == self.coefficients@.len() + 1
                &&& forall|j: int| 0 <= j < self.coefficients@.len()
                    ==> b.coefficients@[j] == self.coefficients@[j]
                &&& b.coefficients@.last().0@ == key@
                &&& b.coefficients@.last().1@ == value@
            },
            has_coeff_key(self.coefficients@, key@) ==> {
                &&& b.coefficients@.len() == self.coefficients@.len()
                &&& forall|j: int|
                    0 <= j < self.coefficients@.len() && (#[trigger] self.coefficients@[j]).0@
                        != key@ ==> b.coefficients@[j] == self.coefficients@[j]
                &&& forall|j: int|
                    0 <= j < self.coefficients@.len() && (#[trigger] self.coefficients@[j]).0@
                        == key@ ==> b.coefficients@[j].0@ == key@ && b.coefficients@[j].1@
                        == value@
            },
    {
        let ghost orig = self.coefficients@;
        let key_string: String = key.to_owned();
        let value_string: String = value.to_owned();
        let mut b = self;
        match find_coeff_index(&b.coefficients, &key_string) {
            Some(i) => {
                b.coefficients.remove(i);
                b.coefficients.insert(i, (key_string, value_string));
                proof {
                    assert(b.coefficients@ =~= orig.update(
                        i as int,
                        (key_string, value_string),
                    ));
                    assert(b.coefficients@[i as int].0@ == key@);
                }
            }
            None => {
                b.coefficients.push((key_string, value_string));
                proof {
                    assert(b.coefficients@[orig.len() as int].0@ == key@);
                }
            }
        }
        b
    }

    /// Add one filter term to this call.
    pub fn with_filter(self, filter: &str) -> (b: Self)
        ensures
            b.binary@ == self.binary@,
            b.coefficients@ == self.coefficients@,
            b.filters@.len() == self.filters@.len() + 1,
            forall|i: int| 0 <= i < self.filters@.len() ==> b.filters@[i] == self.filters@[i],
            b.filters@.last()@ == filter@,
    {
        let mut b = self;
        b.filters.push(filter.to_owned());
        b
    }

    /// The finished invocation: one rendered argument per coefficient
    /// override, in order, then the filters, then `export`.
    pub fn command(self) -> (c: CommandLine)
        ensures
            c.program@ == self.binary@,
            c.args@.len() == self.coefficients@.len() + self.filters@.len() + 1,
            forall|i: int| 0 <= i < self.coefficients@.len() ==> (#[trigger] c.args@[i])@
                == coefficient_arg(self.coefficients@[i].0@, self.coefficients@[i].1@),
            forall|i: int| 0 <= i < self.filters@.len()
                ==> c.args@[self.coefficients@.len() + i] == self.filters@[i],
            c.args@.last()@ == "export"@,
    {
        let ExportBuilder { binary, coefficients, filters } = self;
        let mut args: Vec<String> = Vec::new();
        let n = coefficients.len();
        let mut i: usize = 0;
        while i < n
            invariant
                n == coefficients@.len(),
                i <= n,
                args@.len() == i,
                forall|j: int| 0 <= j < i ==> (#[trigger] args@[j])@
                    == coefficient_arg(coefficients@[j].0@, coefficients@[j].1@),
            decreases n - i,
        {
            let mut arg: String = "rc.urgency.".to_owned();
            arg.append(coefficients[i].0.as_str());
            arg.append(".coefficient=");
            arg.append(coefficients[i].1.as_str());
            args.push(arg);
            i = i + 1;
        }
        let mut filters = filters;
        args.append(&mut filters);
        args.push("export".to_owned());
        CommandLine { program: binary, args }
    }
}

/// Builder for the tracker's modify call: the subject identifiers first,
/// then the `modify` subcommand, then the field mutations.
#[derive(Debug)]
pub struct ModifyBuilder {
    pub binary: String,
    pub subjects: Vec<String>,
    pub mods: Vec<String>,
}

impl ModifyBuilder {
    /// Name one task, by an identifier, as a subject of the modification.
    pub fn with_subject(self, subject: &str) -> (b: Self)
        ensures
            b.binary@ == self.binary@,
            b.mods@ == self.mods@,
            b.subjects@.len() == self.subjects@.len() + 1,
            forall|i: int| 0 <= i < self.subjects@.len() ==> b.subjects@[i] == self.subjects@[i],
            b.subjects@.last()@ == subject@,
    {
        let mut b = self;
        b.subjects.push(subject.to_owned());
        b
    }

    /// Add one field mutation.
    pub fn with_mod(self, mod_: &str) -> (b: Self)
        ensures
            b.binary@ == self.binary@,
            b.subjects@ == self.subjects@,
            b.mods@.len() == self.mods@.len() + 1,
            forall|i: int| 0 <= i < self.mods@.len() ==> b.mods@[i] == self.mods@[i],
            b.mods@.last()@ == mod_@,
    {
        let mut b = self;
        b.mods.push(mod_.to_owned());
        b
    }

    /// The finished invocation: subjects, `modify`, mutations.
    pub fn command(self) -> (c: CommandLine)
        ensures
            c.program@ == self.binary@,
            c.args@.len() == self.subjects@.len() + self.mods@.len() + 1,
            forall|i: int| 0 <= i < self.subjects@.len() ==> c.args@[i] == self.subjects@[i],
            c.args@[self.subjects@.len() as int]@ == "modify"@,
            forall|i: int| 0 <= i < self.mods@.len()
                ==> c.args@[self.subjects@.len() + 1 + i] == self.mods@[i],
    {
        let mut args = self.subjects;
        args.push("modify".to_owned());
        let mut mods = self.mods;
        args.append(&mut mods);
        CommandLine { program: self.binary, args }
    }
}

} // verus!
