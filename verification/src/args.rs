//! Shorthand assignment: every long flag name is given a single-character
//! alias, the first character of the name that no earlier flag has claimed.
use vstd::prelude::*;
use vstd::string::{StrSliceExecFns, StringExecFns};

verus! {

/// The first character of `name` at or after position `i` that `used` does not
/// hold, or `None` when every remaining character is already taken.
pub open spec fn first_unused_from(name: Seq<char>, used: Seq<char>, i: int) -> Option<char>
    decreases name.len() - i,
{
    if i < 0 || i >= name.len() {
        None
    } else if !used.contains(name[i]) {
        Some(name[i])
    } else {
        first_unused_from(name, used, i + 1)
    }
}

/// The first character of `name`, scanning left to right, that `used` does not
/// hold.
pub open spec fn first_unused(name: Seq<char>, used: Seq<char>) -> Option<char> {
    first_unused_from(name, used, 0)
}

/// The shorthand assigned to `name` against the already-claimed set: the first
/// free character of the name, or — when every character is taken — the first
/// character again, accepting the clash.
pub open spec fn shorthand_of(name: Seq<char>, used: Seq<char>) -> char {
    match first_unused(name, used) {
        Some(c) => c,
        None => name[0],
    }
}

/// The claimed set after assigning `name` a shorthand: grown by the fresh
/// character when one was found, unchanged under the fallback.
pub open spec fn used_after(name: Seq<char>, used: Seq<char>) -> Seq<char> {
    match first_unused(name, used) {
        Some(c) => used.push(c),
        None => used,
    }
}

/// Registry of the shorthand characters handed out so far during command
/// definition. It is threaded by exclusive reference through the schema
/// builders and discarded afterwards.
pub struct ArgManager {
    pub shorts: Vec<char>,
}

impl ArgManager {
    /// No shorthand was handed out twice, as long as a fresh character could
    /// be found for every name.
    pub open spec fn wf(&self) -> bool {
        self.shorts@.no_duplicates()
    }

    pub fn new() -> (r: ArgManager)
        ensures
            r.wf(),
            r.shorts@ == Seq::<char>::empty(),
    {
        ArgManager { shorts: Vec::new() }
    }

    /// Assign `name` its shorthand and record it as claimed. When every
    /// character of the name is already claimed, the first character is reused
    /// (a documented clash) and nothing new is recorded.
    pub fn add_short(&mut self, name: &str) -> (r: char)
        requires
            old(self).wf(),
            name@.len() > 0,
        ensures
            final(self).wf(),
            r == shorthand_of(name@, old(self).shorts@),
            final(self).shorts@ == used_after(name@, old(self).shorts@),
    {
        let ghost used0 = old(self).shorts@;
        let n = name.unicode_len();
        let mut i: usize = 0;
        while i < n
            invariant
                used0 == old(self).shorts@,
                n == name@.len(),
                i <= n,
                self.shorts@ == used0,
                old(self).wf(),
                first_unused(name@, used0) == first_unused_from(name@, used0, i as int),
            decreases n - i,
        {
            let c = name.get_char(i);
            if !contains_char(&self.shorts, c) {
                proof {
                    assert(first_unused_from(name@, used0, i as int) == Some(c));
                    lemma_push_keeps_no_duplicates(used0, c);
                }
                self.shorts.push(c);
                return c;
            }
            proof {
                assert(first_unused_from(name@, used0, i as int)
                    == first_unused_from(name@, used0, i as int + 1));
            }
            i = i + 1;
        }
        assert(first_unused(name@, used0) is None);
        name.get_char(0)
    }
}

/// How a declared flag takes its value on the command line.
pub enum FlagKind {
    /// A bare positional value.
    Positional,
    /// A long/short flag followed by one value.
    Valued,
    /// A presence-only boolean flag.
    Switch,
    /// A positional list taking any number of values.
    Variadic,
}

/// One declared flag of a subcommand: its long name, the assigned shorthand
/// (for named flags), whether it is required, its help text, the stated
/// default of a boolean flag, and how it takes values.
pub struct FlagSpec {
    pub name: String,
    pub short: Option<char>,
    pub required: bool,
    pub help: String,
    pub default: Option<bool>,
    pub kind: FlagKind,
}

impl ArgManager {
    /// Declare a bare positional argument; the registry is left untouched.
    pub fn form_arg(&mut self, name: &str, req: bool, help: &str) -> (r: FlagSpec)
        ensures
            *final(self) == *old(self),
            r.name@ == name@,
            r.short is None,
            r.required == req,
            r.help@ == help@,
            r.default is None,
            r.kind is Positional,
    {
        FlagSpec {
            name: String::from_str(name),
            short: None,
            required: req,
            help: String::from_str(help),
            default: None,
            kind: FlagKind::Positional,
        }
    }

    /// Declare a named value flag whose long name is the field name and whose
    /// shorthand is the first not-yet-claimed character of that name.
    pub fn form_arg_flags(&mut self, name: &str, req: bool, help: &str) -> (r: FlagSpec)
        requires
            old(self).wf(),
            name@.len() > 0,
        ensures
            final(self).wf(),
            final(self).shorts@ == used_after(name@, old(self).shorts@),
            r.name@ == name@,
            r.short == Some(shorthand_of(name@, old(self).shorts@)),
            r.required == req,
            r.help@ == help@,
            r.default is None,
            r.kind is Valued,
    {
        let short = self.add_short(name);
        let base = self.form_arg(name, req, help);
        FlagSpec { short: Some(short), kind: FlagKind::Valued, ..base }
    }

    /// Declare a presence-only boolean flag with its stated default: absent
    /// means `false`.
    pub fn form_bool_arg(&mut self, name: &str, req: bool, help: &str) -> (r: FlagSpec)
        requires
            old(self).wf(),
            name@.len() > 0,
        ensures
            final(self).wf(),
            final(self).shorts@ == used_after(name@, old(self).shorts@),
            r.name@ == name@,
            r.short == Some(shorthand_of(name@, old(self).shorts@)),
            r.required == req,
            r.help@ == help@,
            r.default == Some(false),
            r.kind is Switch,
    {
        let base = self.form_arg_flags(name, req, help);
        FlagSpec { default: Some(false), kind: FlagKind::Switch, ..base }
    }

    /// Declare a positional argument taking any number of values.
    pub fn form_arg_vec(&mut self, name: &str, req: bool, help: &str) -> (r: FlagSpec)
        ensures
            *final(self) == *old(self),
            r.name@ == name@,
            r.short is None,
            r.required == req,
            r.help@ == help@,
            r.default is None,
            r.kind is Variadic,
    {
        let base = self.form_arg(name, req, help);
        FlagSpec { kind: FlagKind::Variadic, ..base }
    }
}

proof fn lemma_first_unused_from_in_name(name: Seq<char>, used: Seq<char>, i: int)
    ensures
        first_unused_from(name, used, i) matches Some(c) ==> name.contains(c),
    decreases name.len() - i,
{
    if i < 0 || i >= name.len() {
    } else if !used.contains(name[i]) {
        assert(name.contains(name[i]));
    } else {
        lemma_first_unused_from_in_name(name, used, i + 1);
    }
}

/// Whatever is already claimed, the assigned shorthand is always one of the
/// name's own characters.
pub proof fn lemma_shorthand_from_name(name: Seq<char>, used: Seq<char>)
    requires
        name.len() > 0,
    ensures
        name.contains(shorthand_of(name, used)),
{
    lemma_first_unused_from_in_name(name, used, 0);
    assert(name.contains(name[0]));
}

/// The shorthands assigned when the names are registered in order, starting
/// from the claimed set `used`.
pub open spec fn assigned_shorts(names: Seq<Seq<char>>, used: Seq<char>) -> Seq<char>
    decreases names.len(),
{
    if names.len() == 0 {
        Seq::empty()
    } else {
        seq![shorthand_of(names[0], used)] + assigned_shorts(
            names.drop_first(),
            used_after(names[0], used),
        )
    }
}

/// For every set of flag names whose leading characters are pairwise distinct
/// and not yet claimed, each assigned shorthand equals the name's first
/// character, and the assigned shorthands are pairwise distinct.
pub proof fn lemma_distinct_leading_shorthands(names: Seq<Seq<char>>, used: Seq<char>)
    requires
        forall|i: int| 0 <= i < names.len() ==> #[trigger] names[i].len() > 0,
        forall|i: int| 0 <= i < names.len() ==> !used.contains(#[trigger] names[i][0]),
        forall|i: int, j: int|
            0 <= i < names.len() && 0 <= j < names.len() && i != j ==> names[i][0] != names[j][0],
    ensures
        assigned_shorts(names, used).len() == names.len(),
        forall|i: int|
            0 <= i < names.len() ==> #[trigger] assigned_shorts(names, used)[i] == names[i][0],
        assigned_shorts(names, used).no_duplicates(),
    decreases names.len(),
{
    if names.len() > 0 {
        let head = names[0];
        assert(first_unused_from(head, used, 0) == Some(head[0]));
        assert(shorthand_of(head, used) == head[0]);
        let used2 = used_after(head, used);
        assert(used2 == used.push(head[0]));
        let rest = names.drop_first();
        assert forall|i: int| 0 <= i < rest.len() implies !used2.contains(
            #[trigger] rest[i][0],
        ) by {
            assert(rest[i] == names[i + 1]);
            if used2.contains(rest[i][0]) {
                let k = choose|k: int| 0 <= k < used2.len() && used2[k] == rest[i][0];
                if k < used.len() {
                    assert(used.contains(rest[i][0]));
                } else {
                    assert(used2[k] == head[0]);
                }
            }
        }
        assert forall|i: int| 0 <= i < rest.len() implies #[trigger] rest[i].len() > 0 by {
            assert(rest[i] == names[i + 1]);
        }
        assert forall|i: int, j: int|
            0 <= i < rest.len() && 0 <= j < rest.len() && i != j implies rest[i][0]
            != rest[j][0] by {
            assert(rest[i] == names[i + 1]);
            assert(rest[j] == names[j + 1]);
        }
        lemma_distinct_leading_shorthands(rest, used2);
        let all = assigned_shorts(names, used);
        assert(all == seq![head[0]] + assigned_shorts(rest, used2));
        assert forall|i: int| 0 <= i < names.len() implies #[trigger] all[i] == names[i][0] by {
            if i > 0 {
                assert(all[i] == assigned_shorts(rest, used2)[i - 1]);
                assert(rest[i - 1] == names[i]);
            }
        }
        assert forall|i: int, j: int|
            0 <= i < all.len() && 0 <= j < all.len() && i != j implies all[i] != all[j] by {
            assert(all[i] == names[i][0]);
            assert(all[j] == names[j][0]);
        }
    }
}

/// Whether `v` holds the character `c`.
fn contains_char(v: &Vec<char>, c: char) -> (r: bool)
    ensures
        r == v@.contains(c),
{
    let mut i: usize = 0;
    while i < v.len()
        invariant
            i <= v@.len(),
            forall|j: int| 0 <= j < i ==> v@[j] != c,
        decreases v@.len() - i,
    {
        if v[i] == c {
            assert(v@.contains(c));
            return true;
        }
        i = i + 1;
    }
    assert(!v@.contains(c));
    false
}

proof fn lemma_push_keeps_no_duplicates(s: Seq<char>, c: char)
    requires
        s.no_duplicates(),
        !s.contains(c),
    ensures
        s.push(c).no_duplicates(),
{
    assert forall|i: int, j: int|
        0 <= i < s.push(c).len() && 0 <= j < s.push(c).len() && i != j implies s.push(c)[i]
        != s.push(c)[j] by {
        if i < s.len() && j < s.len() {
            assert(s[i] == s.push(c)[i]);
        } else if i < s.len() {
            assert(s.push(c)[i] == s[i]);
            assert(s.contains(s[i]));
        } else if j < s.len() {
            assert(s.push(c)[j] == s[j]);
            assert(s.contains(s[j]));
        }
    }
}

} // verus!
