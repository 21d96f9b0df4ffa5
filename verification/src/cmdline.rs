//! Linux kernel command line: single arguments and an ordered builder in which an added
//! argument replaces one with the same key, unless it is appended as a repeated key.
use vstd::prelude::*;
use crate::text::{lemma_first_index_of, chars_of, chars_eq, concat3, find_char, first_index_of, owned, string_of, sub_chars};

verus! {

/// One kernel command line argument: `key=value` or a bare flag.
#[derive(Debug, Clone, PartialEq, Eq)]
pub enum CmdlineArg {
    KeyValue { key: String, value: String },
    Flag(String),
}

/// The abstract value of a [`CmdlineArg`].
pub enum ArgView {
    KeyValue(Seq<char>, Seq<char>),
    Flag(Seq<char>),
}

impl ArgView {
    /// The key of a `key=value` argument, or the name of a flag.
    pub open spec fn key(self) -> Seq<char> {
        match self {
            ArgView::KeyValue(k, _) => k,
            ArgView::Flag(n) => n,
        }
    }

    /// The text the argument contributes to the command line.
    pub open spec fn text(self) -> Seq<char> {
        match self {
            ArgView::KeyValue(k, v) => k + seq!['='] + v,
            ArgView::Flag(n) => n,
        }
    }
}

impl View for CmdlineArg {
    type V = ArgView;

    open spec fn view(&self) -> ArgView {
        match self {
            CmdlineArg::KeyValue { key, value } => ArgView::KeyValue(key@, value@),
            CmdlineArg::Flag(n) => ArgView::Flag(n@),
        }
    }
}

/// The argument `parse` reads from `s`: split at the first `=`, else a flag.
pub open spec fn parse_spec(s: Seq<char>) -> ArgView {
    match first_index_of(s, '=') {
        Some(i) => ArgView::KeyValue(s.subrange(0, i), s.subrange(i + 1, s.len() as int)),
        None => ArgView::Flag(s),
    }
}

impl CmdlineArg {
    /// Parses `key=value` (split at the first `=`) or a bare flag.
    pub fn parse(s: &str) -> (r: CmdlineArg)
        ensures
            r@ == parse_spec(s@),
    {
        let cs = chars_of(s);
        proof {
            lemma_first_index_of(s@, '=');
        }
        match find_char(cs.as_slice(), '=') {
            Some(i) => {
                let k = sub_chars(cs.as_slice(), 0, i);
                let v = sub_chars(cs.as_slice(), i + 1, cs.len());
                CmdlineArg::KeyValue { key: string_of(k.as_slice()), value: string_of(v.as_slice()) }
            },
            None => CmdlineArg::Flag(owned(s)),
        }
    }

    /// A `key=value` argument.
    pub fn kv(key: &str, value: &str) -> (r: CmdlineArg)
        ensures
            r@ == ArgView::KeyValue(key@, value@),
    {
        CmdlineArg::KeyValue { key: owned(key), value: owned(value) }
    }

    /// A flag argument.
    pub fn flag(name: &str) -> (r: CmdlineArg)
        ensures
            r@ == ArgView::Flag(name@),
    {
        CmdlineArg::Flag(owned(name))
    }

    /// The key (or flag name) of this argument.
    pub fn key(&self) -> (r: &str)
        ensures
            r@ == self@.key(),
    {
        match self {
            CmdlineArg::KeyValue { key, .. } => key.as_str(),
            CmdlineArg::Flag(n) => n.as_str(),
        }
    }

    /// The argument as it appears on the command line.
    pub fn to_string(&self) -> (r: String)
        ensures
            r@ == self@.text(),
    {
        match self {
            CmdlineArg::KeyValue { key, value } => {
                let r = concat3(key.as_str(), "=", value.as_str());
                proof {
                    reveal_strlit("=");
                }
                r
            },
            CmdlineArg::Flag(n) => owned(n.as_str()),
        }
    }

    /// A copy of this argument.
    pub fn duplicate(&self) -> (r: CmdlineArg)
        ensures
            r@ == self@,
    {
        match self {
            CmdlineArg::KeyValue { key, value } => CmdlineArg::KeyValue {
                key: key.clone(),
                value: value.clone(),
            },
            CmdlineArg::Flag(n) => CmdlineArg::Flag(n.clone()),
        }
    }
}

/// The arguments of `s`, each by its view.
pub open spec fn arg_views(s: Seq<CmdlineArg>) -> Seq<ArgView> {
    s.map_values(|a: CmdlineArg| a@)
}

/// `s` without the arguments whose key is `k`, in order.
pub open spec fn without_key(s: Seq<ArgView>, k: Seq<char>) -> Seq<ArgView>
    decreases s.len(),
{
    if s.len() == 0 {
        s
    } else {
        let r = without_key(s.drop_last(), k);
        if s.last().key() == k {
            r
        } else {
            r.push(s.last())
        }
    }
}

/// `s` after adding `a`: any argument with the same key goes, `a` comes last.
pub open spec fn with_arg(s: Seq<ArgView>, a: ArgView) -> Seq<ArgView> {
    without_key(s, a.key()).push(a)
}

/// Whether some argument of `s` has key `k`.
pub open spec fn has_key(s: Seq<ArgView>, k: Seq<char>) -> bool {
    exists|i: int| 0 <= i < s.len() && (#[trigger] s[i]).key() == k
}

/// The value of the first `key=value` argument of `s` with key `k`.
pub open spec fn value_of(s: Seq<ArgView>, k: Seq<char>) -> Option<Seq<char>>
    decreases s.len(),
{
    if s.len() == 0 {
        None
    } else {
        match s[0] {
            ArgView::KeyValue(kk, v) => if kk == k {
                Some(v)
            } else {
                value_of(s.drop_first(), k)
            },
            ArgView::Flag(_) => value_of(s.drop_first(), k),
        }
    }
}

/// Index of the first argument of `s` with key `k`.
pub open spec fn key_index(s: Seq<ArgView>, k: Seq<char>) -> Option<int>
    decreases s.len(),
{
    if s.len() == 0 {
        None
    } else if s[0].key() == k {
        Some(0)
    } else {
        match key_index(s.drop_first(), k) {
            Some(i) => Some(i + 1),
            None => None,
        }
    }
}

/// No two arguments of `s` share a key.
pub open spec fn keys_distinct(s: Seq<ArgView>) -> bool {
    forall|i: int, j: int| 0 <= i < j < s.len() ==> (#[trigger] s[i]).key() != (#[trigger] s[j]).key()
}

/// The arguments' texts joined with single spaces.
pub open spec fn join_args(s: Seq<ArgView>) -> Seq<char>
    decreases s.len(),
{
    if s.len() == 0 {
        Seq::empty()
    } else if s.len() == 1 {
        s[0].text()
    } else {
        join_args(s.drop_last()) + seq![' '] + s.last().text()
    }
}

/// `s` after adding each argument of `t`, in order.
pub open spec fn with_all(s: Seq<ArgView>, t: Seq<ArgView>) -> Seq<ArgView>
    decreases t.len(),
{
    if t.len() == 0 {
        s
    } else {
        with_arg(with_all(s, t.drop_last()), t.last())
    }
}

pub proof fn lemma_without_key_props(s: Seq<ArgView>, k: Seq<char>)
    ensures
        forall|i: int|
            0 <= i < without_key(s, k).len() ==> (#[trigger] without_key(s, k)[i]).key() != k,
        forall|i: int|
            0 <= i < without_key(s, k).len() ==> s.contains(#[trigger] without_key(s, k)[i]),
        without_key(s, k).len() <= s.len(),
        forall|i: int| 0 <= i < s.len() && s[i].key() != k ==> without_key(s, k).contains(#[trigger] s[i]),
    decreases s.len(),
{
    if s.len() > 0 {
        lemma_without_key_props(s.drop_last(), k);
        let r = without_key(s.drop_last(), k);
        assert forall|i: int| 0 <= i < without_key(s, k).len() implies s.contains(
            #[trigger] without_key(s, k)[i],
        ) by {
            if i < r.len() {
                assert(s.drop_last().contains(r[i]));
                let j = choose|j: int| 0 <= j < s.drop_last().len() && s.drop_last()[j] == r[i];
                assert(s[j] == r[i]);
            } else {
                assert(s[s.len() - 1] == without_key(s, k)[i]);
            }
        }
        assert forall|i: int| 0 <= i < s.len() && s[i].key() != k implies without_key(
            s,
            k,
        ).contains(#[trigger] s[i]) by {
            if i < s.len() - 1 {
                assert(s.drop_last()[i] == s[i]);
                assert(r.contains(s[i]));
                let j = choose|j: int| 0 <= j < r.len() && r[j] == s[i];
                assert(without_key(s, k)[j] == s[i]);
            } else {
                assert(without_key(s, k)[r.len() as int] == s[i]);
            }
        }
    }
}

proof fn lemma_keys_distinct_without(s: Seq<ArgView>, k: Seq<char>)
    requires
        keys_distinct(s),
    ensures
        keys_distinct(without_key(s, k)),
    decreases s.len(),
{
    if s.len() > 0 {
        lemma_keys_distinct_without(s.drop_last(), k);
        lemma_without_key_props(s.drop_last(), k);
        let r = without_key(s.drop_last(), k);
        if s.last().key() != k {
            let w = r.push(s.last());
            assert forall|i: int, j: int| 0 <= i < j < w.len() implies (#[trigger] w[i]).key() != (
            #[trigger] w[j]).key() by {
                if j == w.len() - 1 {
                    assert(s.drop_last().contains(r[i]));
                    let m = choose|m: int| 0 <= m < s.drop_last().len() && s.drop_last()[m] == r[i];
                    assert(s[m] == r[i]);
                } else {
                    assert(w[i] == r[i] && w[j] == r[j]);
                }
            }
        }
    }
}

/// Without an argument of key `k`, removing key `k` changes nothing.
proof fn lemma_without_absent_key(s: Seq<ArgView>, k: Seq<char>)
    requires
        forall|i: int| 0 <= i < s.len() ==> (#[trigger] s[i]).key() != k,
    ensures
        without_key(s, k) == s,
    decreases s.len(),
{
    if s.len() > 0 {
        assert forall|i: int| 0 <= i < s.drop_last().len() implies (#[trigger] s.drop_last()[i]).key() != k by {
            assert(s.drop_last()[i] == s[i]);
        }
        lemma_without_absent_key(s.drop_last(), k);
        assert(s.last() == s[s.len() - 1]);
        assert(s.drop_last().push(s.last()) =~= s);
    }
}

/// Adding an argument whose key no argument has appends it.
pub proof fn lemma_with_fresh_arg(s: Seq<ArgView>, a: ArgView)
    requires
        forall|i: int| 0 <= i < s.len() ==> (#[trigger] s[i]).key() != a.key(),
    ensures
        with_arg(s, a) == s.push(a),
{
    lemma_without_absent_key(s, a.key());
}

/// Adding an argument keeps the keys distinct.
pub proof fn lemma_with_arg_distinct(s: Seq<ArgView>, a: ArgView)
    requires
        keys_distinct(s),
    ensures
        keys_distinct(with_arg(s, a)),
{
    lemma_keys_distinct_without(s, a.key());
    lemma_without_key_props(s, a.key());
    let w = without_key(s, a.key());
    let t = w.push(a);
    assert forall|i: int, j: int| 0 <= i < j < t.len() implies (#[trigger] t[i]).key() != (
    #[trigger] t[j]).key() by {
        if j == t.len() - 1 {
            assert(t[i] == w[i]);
        } else {
            assert(t[i] == w[i] && t[j] == w[j]);
        }
    }
}

proof fn lemma_value_of_push(s: Seq<ArgView>, a: ArgView, k: Seq<char>)
    ensures
        value_of(s.push(a), k) == match value_of(s, k) {
            Some(v) => Some(v),
            None => match a {
                ArgView::KeyValue(kk, v) => if kk == k {
                    Some(v)
                } else {
                    None
                },
                ArgView::Flag(_) => None,
            },
        },
    decreases s.len(),
{
    if s.len() > 0 {
        assert(s.push(a).drop_first() =~= s.drop_first().push(a));
        assert(s.push(a)[0] == s[0]);
        lemma_value_of_push(s.drop_first(), a, k);
    } else {
        assert(s.push(a).drop_first() =~= Seq::<ArgView>::empty());
        assert(s.push(a)[0] == a);
        assert(value_of(Seq::<ArgView>::empty(), k) is None);
    }
}

proof fn lemma_value_of_none(s: Seq<ArgView>, k: Seq<char>)
    requires
        forall|i: int| 0 <= i < s.len() ==> (#[trigger] s[i]).key() != k,
    ensures
        value_of(s, k) is None,
    decreases s.len(),
{
    if s.len() > 0 {
        assert forall|i: int| 0 <= i < s.drop_first().len() implies (
        #[trigger] s.drop_first()[i]).key() != k by {
            assert(s.drop_first()[i] == s[i + 1]);
        }
        lemma_value_of_none(s.drop_first(), k);
        assert(s[0].key() != k);
    }
}

/// What a write gives back: after `key=value` is added, `get(key)` returns `value`.
pub proof fn law_value_after_arg(s: Seq<ArgView>, k: Seq<char>, v: Seq<char>)
    ensures
        value_of(with_arg(s, ArgView::KeyValue(k, v)), k) == Some(v),
{
    lemma_without_key_props(s, k);
    lemma_value_of_none(without_key(s, k), k);
    lemma_value_of_push(without_key(s, k), ArgView::KeyValue(k, v), k);
}

/// Adding an argument leaves the other keys' values as they were.
pub proof fn law_other_value_unchanged(s: Seq<ArgView>, a: ArgView, k: Seq<char>)
    requires
        a.key() != k,
    ensures
        value_of(with_arg(s, a), k) == value_of(s, k),
    decreases s.len(),
{
    lemma_value_of_push(without_key(s, a.key()), a, k);
    lemma_value_of_without(s, a.key(), k);
}

proof fn lemma_value_of_without(s: Seq<ArgView>, r: Seq<char>, k: Seq<char>)
    requires
        r != k,
    ensures
        value_of(without_key(s, r), k) == value_of(s, k),
    decreases s.len(),
{
    if s.len() > 0 {
        lemma_value_of_without(s.drop_last(), r, k);
        lemma_value_of_push(s.drop_last(), s.last(), k);
        lemma_value_of_push(without_key(s.drop_last(), r), s.last(), k);
        assert(s.drop_last().push(s.last()) =~= s);
        if s.last().key() == r {
            match s.last() {
                ArgView::KeyValue(kk, _) => {
                    assert(kk != k);
                },
                ArgView::Flag(_) => {},
            }
        }
    }
}

/// After an argument with key `k` is added, the command line holds key `k`.
pub proof fn law_has_key_after_add(s: Seq<ArgView>, a: ArgView)
    ensures
        has_key(with_arg(s, a), a.key()),
{
    let t = with_arg(s, a);
    assert(t[t.len() - 1] == a);
}

/// The abstract value of a [`KernelCmdline`].
pub struct CmdlineView {
    pub args: Seq<ArgView>,
    pub override_value: Option<Seq<char>>,
}

/// The text a command line builds to.
pub open spec fn built(c: CmdlineView) -> Seq<char> {
    match c.override_value {
        Some(o) => o,
        None => join_args(c.args),
    }
}

/// One change made to a command line by a builder method.
pub enum CmdlineOp {
    /// `add`, `arg`, `flag`, `root`, `console`: the argument replaces any with its key.
    Add(ArgView),
    /// `append_arg`: the argument is appended, keeping any with its key.
    Append(ArgView),
    /// `remove`: the first argument with this key goes.
    Remove(Seq<char>),
    /// `merge`: each argument of the other command line is added; its override is not taken.
    Merge(CmdlineView),
    /// `override_with`: the whole built line is replaced.
    OverrideWith(Seq<char>),
}

/// The command line after `op`.
pub open spec fn apply_op(c: CmdlineView, op: CmdlineOp) -> CmdlineView {
    match op {
        CmdlineOp::Add(a) => CmdlineView { args: with_arg(c.args, a), override_value: c.override_value },
        CmdlineOp::Append(a) => CmdlineView { args: c.args.push(a), override_value: c.override_value },
        CmdlineOp::Remove(k) => CmdlineView {
            args: match key_index(c.args, k) {
                Some(i) => c.args.remove(i),
                None => c.args,
            },
            override_value: c.override_value,
        },
        CmdlineOp::Merge(o) => CmdlineView { args: with_all(c.args, o.args), override_value: c.override_value },
        CmdlineOp::OverrideWith(t) => CmdlineView { args: c.args, override_value: Some(t) },
    }
}

/// The command line after the changes `ops`, first to last.
pub open spec fn apply_ops(c: CmdlineView, ops: Seq<CmdlineOp>) -> CmdlineView
    decreases ops.len(),
{
    if ops.len() == 0 {
        c
    } else {
        apply_op(apply_ops(c, ops.drop_last()), ops.last())
    }
}

/// A command line built from an empty one is overridden exactly when `override_with` was
/// among the changes; in particular `merge` never takes the other line's override.
pub proof fn law_overridden_iff_override_with(ops: Seq<CmdlineOp>)
    ensures
        apply_ops(CmdlineView { args: Seq::empty(), override_value: None }, ops).override_value is Some
            <==> exists|i: int| 0 <= i < ops.len() && #[trigger] ops[i] is OverrideWith,
    decreases ops.len(),
{
    let e = CmdlineView { args: Seq::empty(), override_value: None };
    if ops.len() > 0 {
        law_overridden_iff_override_with(ops.drop_last());
        if exists|i: int| 0 <= i < ops.drop_last().len() && #[trigger] ops.drop_last()[i] is OverrideWith {
            let i = choose|i: int| 0 <= i < ops.drop_last().len() && #[trigger] ops.drop_last()[i] is OverrideWith;
            assert(ops[i] is OverrideWith);
        }
        if exists|i: int| 0 <= i < ops.len() && #[trigger] ops[i] is OverrideWith {
            let i = choose|i: int| 0 <= i < ops.len() && #[trigger] ops[i] is OverrideWith;
            if i < ops.len() - 1 {
                assert(ops.drop_last()[i] is OverrideWith);
            }
        }
    }
}

/// Builder for Linux kernel command line arguments.
///
/// Adding an argument replaces any earlier argument with the same key (appending one keeps
/// it); arguments keep their order of addition. An override, once set, replaces the whole built line.
#[derive(Debug, Clone, Default)]
pub struct KernelCmdline {
    args: Vec<CmdlineArg>,
    override_value: Option<String>,
}

impl View for KernelCmdline {
    type V = CmdlineView;

    closed spec fn view(&self) -> CmdlineView {
        CmdlineView {
            args: arg_views(self.args@),
            override_value: match self.override_value {
                Some(s) => Some(s@),
                None => None,
            },
        }
    }
}

/// Removes from `args` every argument whose key is `key`, keeping the order of the rest.
fn remove_key(args: &mut Vec<CmdlineArg>, key: &str)
    ensures
        arg_views(final(args)@) == without_key(arg_views(old(args)@), key@),
{
    let ghost orig = arg_views(args@);
    let kc = chars_of(key);
    let mut kept: Vec<CmdlineArg> = Vec::new();
    let ghost mut j: int = 0;
    while args.len() > 0
        invariant
            0 <= j <= orig.len(),
            kc@ == key@,
            arg_views(args@) == orig.subrange(j, orig.len() as int),
            arg_views(kept@) == without_key(orig.subrange(0, j), key@),
        decreases args@.len(),
    {
        let ghost prev = args@;
        proof {
            assert(arg_views(prev).len() == prev.len());
            assert(j < orig.len());
        }
        let a = args.remove(0);
        proof {
            assert(a == prev[0]);
            assert(arg_views(prev)[0] == a@);
            assert(orig.subrange(j, orig.len() as int)[0] == orig[j]);
            assert(orig[j] == a@);
            let pre = orig.subrange(0, j + 1);
            assert(pre.drop_last() =~= orig.subrange(0, j));
            assert(pre.last() == a@);
        }
        let ak = chars_of(a.key());
        if !chars_eq(ak.as_slice(), kc.as_slice()) {
            let ghost before = kept@;
            kept.push(a);
            proof {
                assert(arg_views(kept@) =~= arg_views(before).push(a@));
            }
        }
        proof {
            j = j + 1;
            assert(arg_views(args@) =~= orig.subrange(j, orig.len() as int)) by {
                assert forall|m: int| 0 <= m < args@.len() implies arg_views(args@)[m] == orig.subrange(j, orig.len() as int)[m] by {
                    assert(args@[m] == prev[m + 1]);
                    assert(arg_views(prev)[m + 1] == prev[m + 1]@);
                    assert(orig.subrange(j - 1, orig.len() as int)[m + 1] == orig[j + m]);
                }
            }
        }
    }
    proof {
        assert(orig.subrange(0, j) =~= orig);
    }
    *args = kept;
}

impl KernelCmdline {
    /// An empty command line.
    pub fn new() -> (r: KernelCmdline)
        ensures
            r@.args.len() == 0,
            r@.override_value is None,
    {
        KernelCmdline { args: Vec::new(), override_value: None }
    }

    /// Adds an argument, replacing any argument with the same key.
    pub fn add(&mut self, arg: CmdlineArg) -> (r: &mut Self)
        ensures
            (*r)@ == apply_op(old(self)@, CmdlineOp::Add(arg@)),
            (*r)@.args == with_arg(old(self)@.args, arg@),
            (*r)@.override_value == old(self)@.override_value,
            keys_distinct(old(self)@.args) ==> keys_distinct((*r)@.args),
            *final(self) == *final(r),
    {
        proof {
            if keys_distinct(self@.args) {
                lemma_with_arg_distinct(self@.args, arg@);
            }
        }
        remove_key(&mut self.args, arg.key());
        let ghost before = self.args@;
        self.args.push(arg);
        proof {
            assert(arg_views(self.args@) =~= arg_views(before).push(arg@));
        }
        self
    }

    /// Adds `key=value`, replacing any argument with the same key.
    pub fn arg(&mut self, key: &str, value: &str) -> (r: &mut Self)
        ensures
            (*r)@ == apply_op(old(self)@, CmdlineOp::Add(ArgView::KeyValue(key@, value@))),
            (*r)@.args == with_arg(old(self)@.args, ArgView::KeyValue(key@, value@)),
            (*r)@.override_value == old(self)@.override_value,
            keys_distinct(old(self)@.args) ==> keys_distinct((*r)@.args),
            *final(self) == *final(r),
    {
        self.add(CmdlineArg::kv(key, value))
    }

    /// Adds a flag, replacing any argument with the same key.
    pub fn flag(&mut self, name: &str) -> (r: &mut Self)
        ensures
            (*r)@ == apply_op(old(self)@, CmdlineOp::Add(ArgView::Flag(name@))),
            (*r)@.args == with_arg(old(self)@.args, ArgView::Flag(name@)),
            (*r)@.override_value == old(self)@.override_value,
            keys_distinct(old(self)@.args) ==> keys_distinct((*r)@.args),
            *final(self) == *final(r),
    {
        self.add(CmdlineArg::flag(name))
    }

    /// Sets `root=<device>`.
    pub fn root(&mut self, device: &str) -> (r: &mut Self)
        ensures
            (*r)@ == apply_op(old(self)@, CmdlineOp::Add(ArgView::KeyValue("root"@, device@))),
            (*r)@.args == with_arg(old(self)@.args, ArgView::KeyValue("root"@, device@)),
            (*r)@.override_value == old(self)@.override_value,
            keys_distinct(old(self)@.args) ==> keys_distinct((*r)@.args),
            *final(self) == *final(r),
    {
        self.arg("root", device)
    }

    /// Sets `console=<device>`.
    pub fn console(&mut self, device: &str) -> (r: &mut Self)
        ensures
            (*r)@ == apply_op(old(self)@, CmdlineOp::Add(ArgView::KeyValue("console"@, device@))),
            (*r)@.args == with_arg(old(self)@.args, ArgView::KeyValue("console"@, device@)),
            (*r)@.override_value == old(self)@.override_value,
            keys_distinct(old(self)@.args) ==> keys_distinct((*r)@.args),
            *final(self) == *final(r),
    {
        self.arg("console", device)
    }

    /// Appends `key=value` after the existing arguments, keeping any argument with the same
    /// key: for keys the kernel takes more than once, such as `virtio_mmio.device`.
    pub fn append_arg(&mut self, key: &str, value: &str) -> (r: &mut Self)
        ensures
            (*r)@ == apply_op(old(self)@, CmdlineOp::Append(ArgView::KeyValue(key@, value@))),
            (*r)@.args == old(self)@.args.push(ArgView::KeyValue(key@, value@)),
            (*r)@.override_value == old(self)@.override_value,
            *final(self) == *final(r),
    {
        let ghost before = self.args@;
        self.args.push(CmdlineArg::kv(key, value));
        proof {
            assert(arg_views(self.args@) =~= arg_views(before).push(ArgView::KeyValue(key@, value@)));
        }
        self
    }

    /// Replaces the whole built command line with `cmdline`.
    pub fn override_with(&mut self, cmdline: &str) -> (r: &mut Self)
        ensures
            (*r)@ == apply_op(old(self)@, CmdlineOp::OverrideWith(cmdline@)),
            (*r)@.args == old(self)@.args,
            (*r)@.override_value == Some(cmdline@),
            *final(self) == *final(r),
    {
        self.override_value = Some(owned(cmdline));
        self
    }

    /// Whether some argument has key `key`.
    pub fn contains(&self, key: &str) -> (r: bool)
        ensures
            r == has_key(self@.args, key@),
    {
        let kc = chars_of(key);
        let mut i: usize = 0;
        while i < self.args.len()
            invariant
                i <= self.args@.len(),
                kc@ == key@,
                forall|j: int| 0 <= j < i ==> (#[trigger] arg_views(self.args@)[j]).key() != key@,
            decreases self.args@.len() - i,
        {
            let ak = chars_of(self.args[i].key());
            if chars_eq(ak.as_slice(), kc.as_slice()) {
                assert(arg_views(self.args@)[i as int].key() == key@);
                return true;
            }
            i = i + 1;
        }
        proof {
            if has_key(self@.args, key@) {
                let j = choose|j: int| 0 <= j < self@.args.len() && (#[trigger] self@.args[j]).key() == key@;
                assert(arg_views(self.args@)[j].key() != key@);
            }
        }
        false
    }

    /// The value of the first `key=value` argument with this key; flags have none.
    pub fn get(&self, key: &str) -> (r: Option<&str>)
        ensures
            match r {
                Some(v) => value_of(self@.args, key@) == Some(v@),
                None => value_of(self@.args, key@) is None,
            },
    {
        let kc = chars_of(key);
        let ghost s = self@.args;
        assert(s.subrange(0, s.len() as int) =~= s);
        let mut i: usize = 0;
        while i < self.args.len()
            invariant
                i <= self.args@.len(),
                kc@ == key@,
                s == arg_views(self.args@),
                value_of(s, key@) == value_of(s.subrange(i as int, s.len() as int), key@),
            decreases self.args@.len() - i,
        {
            proof {
                let t = s.subrange(i as int, s.len() as int);
                assert(t.drop_first() =~= s.subrange(i + 1, s.len() as int));
                assert(t[0] == s[i as int]);
            }
            match &self.args[i] {
                CmdlineArg::KeyValue { key: k, value } => {
                    let ak = chars_of(k.as_str());
                    if chars_eq(ak.as_slice(), kc.as_slice()) {
                        return Some(value.as_str());
                    }
                },
                CmdlineArg::Flag(_) => {},
            }
            i = i + 1;
        }
        None
    }

    /// Removes and returns the first argument with key `key`.
    pub fn remove(&mut self, key: &str) -> (r: Option<CmdlineArg>)
        ensures
            final(self)@ == apply_op(old(self)@, CmdlineOp::Remove(key@)),
            match key_index(old(self)@.args, key@) {
                Some(i) => r is Some && r->0@ == old(self)@.args[i] && final(self)@.args
                    == old(self)@.args.remove(i),
                None => r is None && final(self)@.args == old(self)@.args,
            },
            final(self)@.override_value == old(self)@.override_value,
    {
        let kc = chars_of(key);
        let ghost s = self@.args;
        assert(s.subrange(0, s.len() as int) =~= s);
        let mut i: usize = 0;
        while i < self.args.len()
            invariant
                i <= self.args@.len(),
                kc@ == key@,
                s == arg_views(self.args@),
                self.args@ == old(self).args@,
                self.override_value == old(self).override_value,
                key_index(s, key@) == match key_index(s.subrange(i as int, s.len() as int), key@) {
                    Some(m) => Some(m + i),
                    None => None,
                },
            decreases self.args@.len() - i,
        {
            proof {
                let t = s.subrange(i as int, s.len() as int);
                assert(t.drop_first() =~= s.subrange(i + 1, s.len() as int));
                assert(t[0] == s[i as int]);
            }
            let ak = chars_of(self.args[i].key());
            if chars_eq(ak.as_slice(), kc.as_slice()) {
                let a = self.args.remove(i);
                proof {
                    assert(arg_views(self.args@) =~= s.remove(i as int));
                }
                return Some(a);
            }
            i = i + 1;
        }
        None
    }

    /// The command line text: the override if set, else the arguments joined by spaces.
    pub fn build(&self) -> (r: String)
        ensures
            r@ == built(self@),
    {
        if let Some(o) = &self.override_value {
            return o.clone();
        }
        let ghost s = self@.args;
        let mut out = String::new();
        let mut i: usize = 0;
        while i < self.args.len()
            invariant
                i <= self.args@.len(),
                s == arg_views(self.args@),
                out@ == join_args(s.subrange(0, i as int)),
            decreases self.args@.len() - i,
        {
            let t = self.args[i].to_string();
            proof {
                let p = s.subrange(0, i + 1);
                assert(p.drop_last() =~= s.subrange(0, i as int));
                assert(p.last() == s[i as int]);
            }
            if i > 0 {
                out.append(" ");
                proof {
                    reveal_strlit(" ");
                }
            }
            out.append(t.as_str());
            i = i + 1;
            proof {
                if i == 1 {
                    assert(s.subrange(0, 1)[0] == s[0]);
                    assert(out@ =~= join_args(s.subrange(0, i as int)));
                } else {
                    assert(out@ =~= join_args(s.subrange(0, i as int)));
                }
            }
        }
        proof {
            assert(s.subrange(0, i as int) =~= s);
        }
        out
    }

    /// Adds each argument of `other`, in order, as `add` does.
    pub fn merge(&mut self, other: &KernelCmdline) -> (r: &mut Self)
        ensures
            (*r)@ == apply_op(old(self)@, CmdlineOp::Merge(other@)),
            (*r)@.args == with_all(old(self)@.args, other@.args),
            (*r)@.override_value == old(self)@.override_value,
            keys_distinct(old(self)@.args) ==> keys_distinct((*r)@.args),
            *final(self) == *final(r),
    {
        let ghost start = self@.args;
        let ghost t = other@.args;
        let mut i: usize = 0;
        while i < other.args.len()
            invariant
                i <= other.args@.len(),
                t == arg_views(other.args@),
                self@.args == with_all(start, t.subrange(0, i as int)),
                self@.override_value == old(self)@.override_value,
                keys_distinct(start) ==> keys_distinct(self@.args),
            decreases other.args@.len() - i,
        {
            let a = other.args[i].duplicate();
            self.add(a);
            proof {
                let p = t.subrange(0, i + 1);
                assert(p.drop_last() =~= t.subrange(0, i as int));
                assert(p.last() == t[i as int]);
            }
            i = i + 1;
        }
        proof {
            assert(t.subrange(0, i as int) =~= t);
        }
        self
    }

    /// Whether an override replaces the built command line.
    pub fn is_overridden(&self) -> (r: bool)
        ensures
            r == (self@.override_value is Some),
    {
        self.override_value.is_some()
    }
}

} // verus!
