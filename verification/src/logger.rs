//! Logging helpers for UEFI
//!
//! Log records are filtered by their target, the module path they come
//! from: a logger names the targets it lets through and those it keeps out.
//! A name covers a target equal to it, or one it is a prefix of that goes on
//! with a `:`, so `nuefi` covers `nuefi::mem` but not `nuefi_macros`.
use vstd::prelude::*;

use crate::proto::console::{TextBackground, TextForeground};

verus! {

/// Whether the name `s` covers `target`
pub open spec fn target_matches(s: Seq<char>, target: Seq<char>) -> bool {
    ||| s == target
    ||| (s.len() < target.len() && target.subrange(0, s.len() as int) == s && target[s.len() as int]
        == ':')
}

/// Whether one of `names` covers `target`
pub open spec fn any_matches(names: Seq<&str>, target: Seq<char>) -> bool {
    exists|i: int| 0 <= i < names.len() && target_matches(#[trigger] names[i]@, target)
}

/// Whether the name `s` covers `target`
fn matches(s: &str, target: &str) -> (r: bool)
    ensures
        r == target_matches(s@, target@),
{
    let n: usize = s.unicode_len();
    let m: usize = target.unicode_len();
    if n > m {
        return false;
    }
    let mut i: usize = 0;
    while i < n
        invariant
            n == s@.len(),
            m == target@.len(),
            n <= m,
            i <= n,
            forall|k: int| 0 <= k < i ==> s@[k] == target@[k],
        decreases n - i,
    {
        if s.get_char(i) != target.get_char(i) {
            proof {
                assert(target@.subrange(0, n as int)[i as int] != s@[i as int]);
            }
            return false;
        }
        i = i + 1;
    }
    assert(target@.subrange(0, n as int) =~= s@);
    if n == m {
        assert(s@ =~= target@);
        true
    } else {
        target.get_char(n) == ':'
    }
}

/// Whether one of `names` covers `target`
fn any_match(names: &[&str], target: &str) -> (r: bool)
    ensures
        r == any_matches(names@, target@),
{
    let mut i: usize = 0;
    while i < names.len()
        invariant
            i <= names@.len(),
            forall|k: int| 0 <= k < i ==> !target_matches(#[trigger] names@[k]@, target@),
        decreases names@.len() - i,
    {
        if matches(names[i], target) {
            return true;
        }
        i = i + 1;
    }
    false
}

/// UEFI logger filter
///
/// Lets through the records whose target a name in `targets` covers, or all
/// of them where there are no targets, and keeps out those a name in
/// `excludes` covers. Excludes add up: each call of
/// [`UefiLogger::exclude`] keeps out more.
pub struct UefiLogger {
    targets: Option<&'static [&'static str]>,
    excludes: Vec<&'static str>,
}

impl UefiLogger {
    /// The names of the targets let through, if limited
    pub closed spec fn spec_targets(&self) -> Option<Seq<&'static str>> {
        match self.targets {
            Some(t) => Some(t@),
            None => None,
        }
    }

    /// The names of the targets kept out, in the order they were added
    pub closed spec fn spec_excludes(&self) -> Seq<&'static str> {
        self.excludes@
    }

    /// Whether records of `target` get through
    pub open spec fn spec_enabled(&self, target: Seq<char>) -> bool {
        let exclude = any_matches(self.spec_excludes(), target);
        let wanted = match self.spec_targets() {
            Some(t) => any_matches(t, target),
            None => true,
        };
        !exclude && wanted
    }

    /// Create a new [UefiLogger]
    ///
    /// Filters out logs from targets that are not in `targets`. If this is
    /// empty then all logs will be filtered.
    pub fn new(targets: &'static [&'static str]) -> (r: Self)
        ensures
            r.spec_targets() == Some(targets@),
            r.spec_excludes() == Seq::<&'static str>::empty(),
    {
        Self { targets: Some(targets), excludes: Vec::new() }
    }

    /// Like [`UefiLogger::new`], but filters nothing, allowing all logs
    /// through.
    pub fn all() -> (r: Self)
        ensures
            r.spec_targets() is None,
            r.spec_excludes() == Seq::<&'static str>::empty(),
    {
        Self { targets: None, excludes: Vec::new() }
    }

    /// Add excludes, keeping those added before
    pub fn exclude(self, excludes: &'static [&'static str]) -> (r: Self)
        ensures
            r.spec_targets() == self.spec_targets(),
            r.spec_excludes() == self.spec_excludes() + excludes@,
    {
        let mut all = self.excludes;
        let ghost before = all@;
        let mut i: usize = 0;
        while i < excludes.len()
            invariant
                i <= excludes@.len(),
                all@ == before + excludes@.subrange(0, i as int),
            decreases excludes@.len() - i,
        {
            all.push(excludes[i]);
            i = i + 1;
            assert(all@ =~= before + excludes@.subrange(0, i as int));
        }
        assert(excludes@.subrange(0, excludes@.len() as int) =~= excludes@);
        Self { targets: self.targets, excludes: all }
    }

    /// Add colorful output
    pub fn color(self) -> (r: UefiColorLogger)
        ensures
            r.0.spec_targets() == self.spec_targets(),
            r.0.spec_excludes() == self.spec_excludes(),
    {
        UefiColorLogger(self)
    }

    /// Whether records of `target` get through
    pub fn enabled(&self, target: &str) -> (r: bool)
        ensures
            r == self.spec_enabled(target@),
    {
        let exclude = any_match(self.excludes.as_slice(), target);
        let wanted = match self.targets {
            Some(targets) => any_match(targets, target),
            None => true,
        };
        !exclude && wanted
    }
}

/// The level of a log record
#[derive(Debug, Clone, Copy, PartialEq, Eq, Structural)]
pub enum Level {
    Error,
    Warn,
    Info,
    Debug,
    Trace,
}

/// Like [UefiLogger], but colors its output based on the level
pub struct UefiColorLogger(pub UefiLogger);

impl UefiColorLogger {
    /// Whether records of `target` get through
    pub fn enabled(&self, target: &str) -> (r: bool)
        ensures
            r == self.0.spec_enabled(target@),
    {
        self.0.enabled(target)
    }

    /// The colors a record of `level` is written in
    pub fn attributes(level: Level) -> (r: (TextForeground, TextBackground))
        ensures
            r.1.0 == 0,
            r.0.0 == match level {
                Level::Error => 0x04usize,
                Level::Warn => 0x0E,
                Level::Info => 0x0B,
                Level::Debug => 0x01,
                Level::Trace => 0x05,
            },
    {
        let fore = match level {
            Level::Error => TextForeground::red(),
            Level::Warn => TextForeground::yellow(),
            Level::Info => TextForeground::light_cyan(),
            Level::Debug => TextForeground::blue(),
            Level::Trace => TextForeground::magenta(),
        };
        (fore, TextBackground::black())
    }
}

/// A logger that limits nothing and excludes nothing lets every record
/// through
pub proof fn lemma_all_lets_everything(l: UefiLogger, target: Seq<char>)
    requires
        l.spec_targets() is None,
        l.spec_excludes().len() == 0,
    ensures
        l.spec_enabled(target),
{
}

/// Adding excludes never lets more through: a target kept out stays kept
/// out, and one let through afterwards was let through before
pub proof fn lemma_excludes_add_up(l: UefiLogger, m: UefiLogger, extra: Seq<&'static str>, target: Seq<char>)
    requires
        m.spec_targets() == l.spec_targets(),
        m.spec_excludes() == l.spec_excludes() + extra,
    ensures
        any_matches(l.spec_excludes(), target) ==> !m.spec_enabled(target),
        any_matches(extra, target) ==> !m.spec_enabled(target),
        m.spec_enabled(target) ==> l.spec_enabled(target),
{
    let e = l.spec_excludes();
    if any_matches(e, target) {
        let i = choose|i: int| 0 <= i < e.len() && target_matches(#[trigger] e[i]@, target);
        assert(m.spec_excludes()[i] == e[i]);
    }
    if any_matches(extra, target) {
        let i = choose|i: int| 0 <= i < extra.len() && target_matches(#[trigger] extra[i]@, target);
        assert(m.spec_excludes()[e.len() + i] == extra[i]);
    }
}

/// A name covers the targets that are exactly it, and the targets of its
/// submodules
pub proof fn lemma_name_covers_submodules(s: Seq<char>, rest: Seq<char>)
    ensures
        target_matches(s, s),
        target_matches(s, s + seq![':', ':'] + rest),
{
    let t = s + seq![':', ':'] + rest;
    assert(t.subrange(0, s.len() as int) =~= s);
}

/// A logger made with no targets lets nothing through
pub proof fn lemma_empty_targets_filter_all(l: UefiLogger, target: Seq<char>)
    requires
        l.spec_targets() == Some(Seq::<&'static str>::empty()),
    ensures
        !l.spec_enabled(target),
{
}

} // verus!
