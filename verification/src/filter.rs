//! Filter directives: `prefix=level` rules, and the set that matches a
//! module path against them.

use vstd::prelude::*;

use crate::error::ConfigError;
use crate::level::Level;
use crate::text::{chars_of, copy_region, find_char, free_of};

verus! {

/// A directive as a value: records whose module path falls under `prefix`
/// are held against `level`. An empty prefix stands for every module.
pub struct DirectiveView {
    pub prefix: Seq<char>,
    pub level: Level,
}

/// Whether `path` falls under `prefix`: it starts with the prefix, and ends
/// there or goes on with `::`.
pub open spec fn prefix_matches(prefix: Seq<char>, path: Seq<char>) -> bool {
    &&& prefix.len() <= path.len()
    &&& path.subrange(0, prefix.len() as int) =~= prefix
    &&& (path.len() == prefix.len() || (prefix.len() + 2 <= path.len() && path[prefix.len() as int]
        == ':' && path[prefix.len() as int + 1] == ':'))
}

/// The directive that a token spells, if it spells one: `prefix=level`, or a
/// bare level name, which stands for every module. The token is split at its
/// first `=`.
pub open spec fn parsed_directive(token: Seq<char>) -> Option<DirectiveView> {
    match token.index_of_first('=') {
        None => match Level::named(token) {
            Some(level) => Some(DirectiveView { prefix: Seq::empty(), level }),
            None => None,
        },
        Some(at) => match Level::named(token.skip(at + 1)) {
            Some(level) => Some(DirectiveView { prefix: token.take(at), level }),
            None => None,
        },
    }
}

/// The directive of one token as a list: empty where the token spells none.
pub open spec fn token_directives(token: Seq<char>) -> Seq<DirectiveView> {
    match parsed_directive(token) {
        Some(directive) => seq![directive],
        None => Seq::empty(),
    }
}

/// The directives that a comma-separated list spells, in order. A token
/// that spells none is passed over.
pub open spec fn directives_in(text: Seq<char>) -> Seq<DirectiveView>
    decreases text.len(),
    via directives_in_decreases
{
    match text.index_of_first(',') {
        None => token_directives(text),
        Some(at) => token_directives(text.take(at)) + directives_in(text.skip(at + 1)),
    }
}

#[via_fn]
proof fn directives_in_decreases(text: Seq<char>) {
    text.index_of_first_ensures(',');
}

/// What it is to decide for `path`: the directive at `at` matches, no
/// matching directive has a longer prefix, and none with a prefix as long
/// stands behind it.
pub open spec fn decides(directives: Seq<DirectiveView>, path: Seq<char>, at: int) -> bool {
    &&& 0 <= at < directives.len()
    &&& prefix_matches(directives[at].prefix, path)
    &&& forall|j: int|
        0 <= j < directives.len() && prefix_matches((#[trigger] directives[j]).prefix, path) ==> {
            ||| directives[j].prefix.len() < directives[at].prefix.len()
            ||| (directives[j].prefix.len() == directives[at].prefix.len() && j <= at)
        }
}

/// No directive matches `path`.
pub open spec fn none_matches(directives: Seq<DirectiveView>, path: Seq<char>) -> bool {
    forall|j: int|
        0 <= j < directives.len() ==> !prefix_matches((#[trigger] directives[j]).prefix, path)
}

/// The directives of a list that name a module, in order.
pub open spec fn module_directives(directives: Seq<DirectiveView>) -> Seq<DirectiveView>
    decreases directives.len(),
{
    if directives.len() == 0 {
        Seq::empty()
    } else if directives.last().prefix.len() == 0 {
        module_directives(directives.drop_last())
    } else {
        module_directives(directives.drop_last()).push(directives.last())
    }
}

/// The level of the last directive of a list that stands for every module.
pub open spec fn last_global(directives: Seq<DirectiveView>) -> Option<Level>
    decreases directives.len(),
{
    if directives.len() == 0 {
        None
    } else if directives.last().prefix.len() == 0 {
        Some(directives.last().level)
    } else {
        last_global(directives.drop_last())
    }
}

/// A filter set as a value: the directives for single modules in the order
/// in which they were registered, and the default threshold if one was set.
pub struct FilterSetView {
    pub directives: Seq<DirectiveView>,
    pub default: Option<Level>,
}

impl FilterSetView {
    /// The set without directives and without a default.
    pub open spec fn empty() -> FilterSetView {
        FilterSetView { directives: Seq::empty(), default: None }
    }

    /// The set with `level` as its default.
    pub open spec fn with_default(self, level: Level) -> FilterSetView {
        FilterSetView { default: Some(level), ..self }
    }

    /// The set after one more directive: one with an empty prefix sets the
    /// default, any other is registered behind those that are there.
    pub open spec fn insert(self, directive: DirectiveView) -> FilterSetView {
        if directive.prefix.len() == 0 {
            self.with_default(directive.level)
        } else {
            FilterSetView { directives: self.directives.push(directive), ..self }
        }
    }

    /// The set after the directives of a list, one after the other.
    pub open spec fn insert_all(self, directives: Seq<DirectiveView>) -> FilterSetView
        decreases directives.len(),
    {
        if directives.len() == 0 {
            self
        } else {
            self.insert_all(directives.drop_last()).insert(directives.last())
        }
    }

    /// The set after the directives that `text` spells.
    pub open spec fn add(self, text: Seq<char>) -> FilterSetView {
        self.insert_all(directives_in(text))
    }

    /// The threshold of a module that no directive matches: the default, and
    /// `Warn` where none is set.
    pub open spec fn default_threshold(self) -> Level {
        match self.default {
            Some(level) => level,
            None => Level::unset(),
        }
    }

    /// The threshold that records of the module at `path` are held against:
    /// that of the directive that decides for the path, and the default
    /// where none does.
    pub open spec fn threshold_for(self, path: Seq<char>) -> Level {
        if exists|at: int| decides(self.directives, path, at) {
            self.directives[choose|at: int| decides(self.directives, path, at)].level
        } else {
            self.default_threshold()
        }
    }

    /// Whether `level` is the default or the level of some directive.
    pub open spec fn holds(self, level: Level) -> bool {
        ||| self.default == Some(level)
        ||| exists|i: int|
            0 <= i < self.directives.len() && (#[trigger] self.directives[i]).level == level
    }

    /// The most verbose level that the set holds, if it holds any.
    pub open spec fn max_threshold(self) -> Option<Level> {
        if self.holds(Level::Trace) {
            Some(Level::Trace)
        } else if self.holds(Level::Debug) {
            Some(Level::Debug)
        } else if self.holds(Level::Info) {
            Some(Level::Info)
        } else if self.holds(Level::Warn) {
            Some(Level::Warn)
        } else if self.holds(Level::Error) {
            Some(Level::Error)
        } else {
            None
        }
    }

    /// The most verbose threshold that any module path can resolve to: the
    /// most verbose level that the set holds, the stand-in for an unset
    /// default included.
    pub open spec fn ceiling(self) -> Level {
        match self.max_threshold() {
            Some(level) => if self.default is Some {
                level
            } else {
                level.most_verbose(Level::unset())
            },
            None => Level::unset(),
        }
    }
}

/// The grammar of one token: a token without `=` is a level name that stands
/// for every module, or nothing; `prefix=name` is a directive for the prefix
/// where the name is a level name, and nothing where it is not.
pub proof fn lemma_token_grammar(prefix: Seq<char>, name: Seq<char>)
    requires
        free_of(prefix, '='),
    ensures
        parsed_directive(prefix) == match Level::named(prefix) {
            Some(level) => Some(DirectiveView { prefix: Seq::empty(), level }),
            None => None,
        },
        parsed_directive(prefix + seq!['='] + name) == match Level::named(name) {
            Some(level) => Some(DirectiveView { prefix, level }),
            None => None,
        },
{
    prefix.index_of_first_ensures('=');
    assert(!prefix.contains('='));
    let token = prefix + seq!['='] + name;
    token.index_of_first_ensures('=');
    assert(token[prefix.len() as int] == '=');
    let at = token.index_of_first('=').unwrap();
    assert(at == prefix.len());
    assert(token.skip(at + 1) =~= name);
    assert(token.take(at) =~= prefix);
}

/// The grammar of a list: a text without `,` is one token, and
/// `token,rest` spells the directive of the token, if it is one, before
/// those of the rest.
pub proof fn lemma_list_grammar(token: Seq<char>, rest: Seq<char>)
    requires
        free_of(token, ','),
    ensures
        directives_in(token) == token_directives(token),
        directives_in(token + seq![','] + rest) == token_directives(token) + directives_in(rest),
{
    token.index_of_first_ensures(',');
    assert(!token.contains(','));
    let text = token + seq![','] + rest;
    text.index_of_first_ensures(',');
    assert(text[token.len() as int] == ',');
    let at = text.index_of_first(',').unwrap();
    assert(at == token.len());
    assert(text.skip(at + 1) =~= rest);
    assert(text.take(at) =~= token);
}

/// The directive that decides among the first directives of a list, found by
/// going through them in order.
spec fn scan(directives: Seq<DirectiveView>, path: Seq<char>) -> Option<int>
    decreases directives.len(),
{
    if directives.len() == 0 {
        None
    } else {
        let earlier = scan(directives.drop_last(), path);
        let last = directives.len() - 1;
        if prefix_matches(directives[last].prefix, path) && (earlier matches Some(i)
            ==> directives[i].prefix.len() <= directives[last].prefix.len()) {
            Some(last)
        } else {
            earlier
        }
    }
}

proof fn lemma_scan_decides(directives: Seq<DirectiveView>, path: Seq<char>)
    ensures
        match scan(directives, path) {
            Some(at) => decides(directives, path, at),
            None => none_matches(directives, path),
        },
    decreases directives.len(),
{
    if directives.len() > 0 {
        let init = directives.drop_last();
        lemma_scan_decides(init, path);
        assert forall|j: int| 0 <= j < init.len() implies init[j] == directives[j] by {}
    }
}

/// Matching is total: for every path some directive decides, or none
/// matches.
pub proof fn lemma_one_decides_or_none_matches(directives: Seq<DirectiveView>, path: Seq<char>)
    ensures
        (exists|at: int| decides(directives, path, at)) != none_matches(directives, path),
{
    lemma_scan_decides(directives, path);
}

/// Matching is deterministic: at most one directive decides.
pub proof fn lemma_decides_once(directives: Seq<DirectiveView>, path: Seq<char>, a: int, b: int)
    requires
        decides(directives, path, a),
        decides(directives, path, b),
    ensures
        a == b,
{
}

/// Longest prefix match: the threshold of a path is the level of the
/// matching directive with the longest prefix, the last registered of those
/// with that prefix.
pub proof fn lemma_threshold_of_deciding(set: FilterSetView, path: Seq<char>, at: int)
    requires
        decides(set.directives, path, at),
    ensures
        set.threshold_for(path) == set.directives[at].level,
{
    let chosen = choose|at: int| decides(set.directives, path, at);
    lemma_decides_once(set.directives, path, chosen, at);
}

/// A path that no directive matches resolves to the default threshold.
pub proof fn lemma_threshold_without_match(set: FilterSetView, path: Seq<char>)
    requires
        none_matches(set.directives, path),
    ensures
        set.threshold_for(path) == set.default_threshold(),
{
    lemma_one_decides_or_none_matches(set.directives, path);
}

/// The most verbose level that a set holds is held by it, and no level that
/// it holds is more verbose.
pub proof fn lemma_max_threshold(set: FilterSetView)
    ensures
        match set.max_threshold() {
            Some(most) => set.holds(most) && forall|level: Level|
                set.holds(level) ==> level.rank() <= most.rank(),
            None => set.default is None && set.directives.len() == 0,
        },
{
    match set.default {
        Some(level) => {
            assert(set.holds(level));
        },
        None => {},
    }
    if set.directives.len() > 0 {
        assert(set.holds(set.directives[0].level));
    }
}

/// No module path resolves to a threshold more verbose than the ceiling of
/// the set.
pub proof fn lemma_ceiling_bounds_thresholds(set: FilterSetView, path: Seq<char>)
    ensures
        set.threshold_for(path).rank() <= set.ceiling().rank(),
        set.default_threshold().rank() <= set.ceiling().rank(),
{
    lemma_max_threshold(set);
    lemma_one_decides_or_none_matches(set.directives, path);
    if exists|at: int| decides(set.directives, path, at) {
        let at = choose|at: int| decides(set.directives, path, at);
        assert(set.holds(set.directives[at].level));
    }
}

/// Inserting a list appends its module directives and lets its last global
/// directive, if it has one, set the default.
pub proof fn lemma_insert_all(set: FilterSetView, directives: Seq<DirectiveView>)
    ensures
        set.insert_all(directives).directives == set.directives + module_directives(directives),
        set.insert_all(directives).default == match last_global(directives) {
            Some(level) => Some(level),
            None => set.default,
        },
    decreases directives.len(),
{
    if directives.len() > 0 {
        lemma_insert_all(set, directives.drop_last());
    }
}

/// A list of directives decides as it does with its tail registered once
/// more behind it.
proof fn lemma_repeat_decides_alike(
    head: Seq<DirectiveView>,
    tail: Seq<DirectiveView>,
    path: Seq<char>,
)
    ensures
        none_matches(head + tail, path) ==> none_matches(head + tail + tail, path),
        forall|once: int| #[trigger]
            decides(head + tail, path, once) ==> exists|twice: int| #[trigger]
                decides(head + tail + tail, path, twice) && (head + tail + tail)[twice] == (head
                    + tail)[once],
{
    let one = head + tail;
    let two = head + tail + tail;
    assert forall|j: int| 0 <= j < two.len() implies #[trigger] two[j] == one[if j < one.len() {
        j
    } else {
        j - tail.len()
    }] by {}
    assert forall|once: int| #[trigger] decides(one, path, once) implies exists|twice: int| #[trigger]
        decides(two, path, twice) && two[twice] == one[once] by {
        let twice = if once < head.len() {
            once
        } else {
            once + tail.len()
        };
        assert forall|j: int|
            0 <= j < two.len() && prefix_matches((#[trigger] two[j]).prefix, path) implies {
            ||| two[j].prefix.len() < two[twice].prefix.len()
            ||| (two[j].prefix.len() == two[twice].prefix.len() && j <= twice)
        } by {
            let k = if j < one.len() {
                j
            } else {
                j - tail.len()
            };
            assert(prefix_matches(one[k].prefix, path));
        }
        assert(decides(two, path, twice));
    }
    if none_matches(one, path) {
        assert forall|j: int| 0 <= j < two.len() implies !prefix_matches(
            (#[trigger] two[j]).prefix,
            path,
        ) by {
            let k = if j < one.len() {
                j
            } else {
                j - tail.len()
            };
            assert(!prefix_matches(one[k].prefix, path));
        }
    }
}

/// Merging the same list of directives a second time changes no threshold:
/// every module path resolves as it did after the first time, and the most
/// verbose threshold of the set stays what it was.
pub proof fn lemma_add_twice(set: FilterSetView, text: Seq<char>, path: Seq<char>)
    ensures
        set.add(text).add(text).threshold_for(path) == set.add(text).threshold_for(path),
        set.add(text).add(text).max_threshold() == set.add(text).max_threshold(),
{
    let directives = directives_in(text);
    let once = set.add(text);
    let twice = once.add(text);
    let tail = module_directives(directives);
    lemma_insert_all(set, directives);
    lemma_insert_all(once, directives);
    lemma_repeat_decides_alike(set.directives, tail, path);
    lemma_one_decides_or_none_matches(once.directives, path);
    if none_matches(once.directives, path) {
        lemma_threshold_without_match(once, path);
        lemma_threshold_without_match(twice, path);
    } else {
        let first = choose|at: int| decides(once.directives, path, at);
        let second = choose|at: int| #[trigger]
            decides(twice.directives, path, at) && twice.directives[at] == once.directives[first];
        lemma_threshold_of_deciding(once, path, first);
        lemma_threshold_of_deciding(twice, path, second);
    }
    assert forall|level: Level| twice.holds(level) == once.holds(level) by {
        if twice.holds(level) && twice.default != Some(level) {
            let i = choose|i: int|
                0 <= i < twice.directives.len() && (#[trigger] twice.directives[i]).level == level;
            let k = if i < once.directives.len() {
                i
            } else {
                i - tail.len()
            };
            assert(once.directives[k].level == level);
        }
        if once.holds(level) && once.default != Some(level) {
            let i = choose|i: int|
                0 <= i < once.directives.len() && (#[trigger] once.directives[i]).level == level;
            assert(twice.directives[i].level == level);
        }
    }
}

/// One filter rule.
#[derive(Debug)]
pub struct FilterDirective {
    prefix: Vec<char>,
    level: Level,
}

impl View for FilterDirective {
    type V = DirectiveView;

    closed spec fn view(&self) -> DirectiveView {
        DirectiveView { prefix: self.prefix@, level: self.level }
    }
}

impl FilterDirective {
    /// The directive that holds the modules under `prefix` against `level`.
    pub fn new(prefix: &str, level: Level) -> (directive: FilterDirective)
        ensures
            directive@ == (DirectiveView { prefix: prefix@, level }),
    {
        FilterDirective { prefix: chars_of(prefix), level }
    }

    pub fn level(&self) -> (level: Level)
        ensures
            level == self@.level,
    {
        self.level
    }

    /// Whether the directive stands for every module.
    pub fn is_global(&self) -> (global: bool)
        ensures
            global == (self@.prefix.len() == 0),
    {
        self.prefix.len() == 0
    }

    /// Whether the module path falls under the directive's prefix.
    pub fn matches(&self, path: &str) -> (matches: bool)
        ensures
            matches == prefix_matches(self@.prefix, path@),
    {
        let chars = chars_of(path);
        self.matches_chars(&chars)
    }

    pub(crate) fn matches_chars(&self, path: &Vec<char>) -> (matches: bool)
        ensures
            matches == prefix_matches(self@.prefix, path@),
    {
        let n = self.prefix.len();
        if n > path.len() {
            return false;
        }
        let mut at: usize = 0;
        while at < n
            invariant
                at <= n,
                n == self.prefix.len(),
                n <= path.len(),
                path@.subrange(0, at as int) =~= self.prefix@.subrange(0, at as int),
            decreases n - at,
        {
            if self.prefix[at] != path[at] {
                return false;
            }
            at = at + 1;
        }
        if path.len() == n {
            true
        } else if path.len() - n < 2 {
            false
        } else {
            path[n] == ':' && path[n + 1] == ':'
        }
    }

    /// Reads one token: `prefix=level`, or a bare level name. Any other
    /// token is malformed.
    pub fn parse(token: &str) -> (parsed: Result<FilterDirective, ConfigError>)
        ensures
            match parsed {
                Ok(directive) => parsed_directive(token@) == Some(directive@),
                Err(error) => error == ConfigError::MalformedDirective && parsed_directive(token@)
                    is None,
            },
    {
        let chars = chars_of(token);
        assert(chars@.subrange(0, chars@.len() as int) =~= token@);
        match FilterDirective::parse_region(&chars, 0, chars.len()) {
            Some(directive) => Ok(directive),
            None => Err(ConfigError::MalformedDirective),
        }
    }

    /// Reads the token that stands in `chars` from `from` up to `to`.
    pub(crate) fn parse_region(chars: &Vec<char>, from: usize, to: usize) -> (parsed: Option<
        FilterDirective,
    >)
        requires
            from <= to <= chars.len(),
        ensures
            match parsed {
                Some(directive) => parsed_directive(chars@.subrange(from as int, to as int))
                    == Some(directive@),
                None => parsed_directive(chars@.subrange(from as int, to as int)) is None,
            },
    {
        let ghost token = chars@.subrange(from as int, to as int);
        let at = find_char(chars, from, to, '=');
        proof {
            token.index_of_first_ensures('=');
            if at < to {
                assert(token[at - from] == '=');
                assert(token.skip(at - from + 1) =~= chars@.subrange(at + 1, to as int));
                assert(token.take(at - from) =~= chars@.subrange(from as int, at as int));
            } else {
                assert(free_of(token, '='));
            }
        }
        if at == to {
            match Level::from_name_in(chars, from, to) {
                Some(level) => Some(FilterDirective { prefix: Vec::new(), level }),
                None => None,
            }
        } else {
            match Level::from_name_in(chars, at + 1, to) {
                Some(level) => Some(FilterDirective { prefix: copy_region(chars, from, at), level }),
                None => None,
            }
        }
    }
}

/// An ordered collection of directives and one default threshold. Every
/// module path resolves to exactly one threshold.
#[derive(Debug)]
pub struct FilterSet {
    directives: Vec<FilterDirective>,
    default: Option<Level>,
}

impl View for FilterSet {
    type V = FilterSetView;

    closed spec fn view(&self) -> FilterSetView {
        FilterSetView {
            directives: self.directives@.map_values(|directive: FilterDirective| directive@),
            default: self.default,
        }
    }
}

impl FilterSet {
    /// A set without directives, whose default threshold is not set.
    pub fn new() -> (set: FilterSet)
        ensures
            set@ == FilterSetView::empty(),
    {
        let set = FilterSet { directives: Vec::new(), default: None };
        assert(set@.directives =~= Seq::empty());
        set
    }

    /// The set that a comma-separated list of directives spells.
    pub fn parse(directives: &str) -> (set: FilterSet)
        ensures
            set@ == FilterSetView::empty().add(directives@),
    {
        let mut set = FilterSet::new();
        set.add(directives);
        set
    }

    /// Registers one directive.
    pub fn insert(&mut self, directive: FilterDirective)
        ensures
            final(self)@ == old(self)@.insert(directive@),
    {
        if directive.is_global() {
            self.default = Some(directive.level());
        } else {
            self.directives.push(directive);
            assert(final(self)@.directives =~= old(self)@.directives.push(directive@));
        }
    }

    /// Sets the default threshold.
    pub fn set_default(&mut self, level: Level)
        ensures
            final(self)@ == old(self)@.with_default(level),
    {
        self.default = Some(level);
    }

    /// Merges the directives of a comma-separated list into the set. A token
    /// that is no directive is passed over.
    pub fn add(&mut self, directives: &str)
        ensures
            final(self)@ == old(self)@.add(directives@),
    {
        let chars = chars_of(directives);
        let ghost text = directives@;
        let ghost mut done: Seq<DirectiveView> = Seq::empty();
        let mut from: usize = 0;
        assert(text.skip(0) =~= text);
        loop
            invariant_except_break
                directives_in(text) == done + directives_in(text.skip(from as int)),
            invariant
                chars@ == text,
                from <= chars.len(),
                self@ == old(self)@.insert_all(done),
            ensures
                self@ == old(self)@.insert_all(directives_in(text)),
            decreases chars.len() - from,
        {
            let to = find_char(&chars, from, chars.len(), ',');
            let ghost rest = text.skip(from as int);
            let ghost token = chars@.subrange(from as int, to as int);
            let parsed = FilterDirective::parse_region(&chars, from, to);
            proof {
                rest.index_of_first_ensures(',');
                if to < chars.len() {
                    assert(rest[to - from] == ',');
                    assert(rest.take(to - from) =~= token);
                    assert(rest.skip(to - from + 1) =~= text.skip(to + 1));
                } else {
                    assert(free_of(rest, ','));
                }
            }
            let ghost before = done;
            match parsed {
                Some(directive) => {
                    proof {
                        done = done.push(directive@);
                        assert(done.drop_last() =~= before);
                    }
                    self.insert(directive);
                },
                None => {},
            }
            if to == chars.len() {
                assert(directives_in(text) =~= done);
                break ;
            }
            assert(directives_in(text) =~= done + directives_in(text.skip(to + 1)));
            from = to + 1;
        }
    }

    /// The default threshold, if it was set.
    pub fn default(&self) -> (level: Option<Level>)
        ensures
            level == self@.default,
    {
        self.default
    }

    /// The number of directives for single modules.
    pub fn len(&self) -> (len: usize)
        ensures
            len == self@.directives.len(),
    {
        self.directives.len()
    }

    /// The threshold that a record of the module at `path` is held against:
    /// that of the directive with the longest prefix that the path falls
    /// under, and the default where there is none.
    pub fn effective_threshold(&self, path: &str) -> (level: Level)
        ensures
            level == self@.threshold_for(path@),
    {
        let chars = chars_of(path);
        let mut best: Option<usize> = None;
        let mut at: usize = 0;
        let ghost views = self@.directives;
        while at < self.directives.len()
            invariant
                at <= self.directives.len(),
                views == self@.directives,
                chars@ == path@,
                match best {
                    Some(i) => i < at && scan(views.take(at as int), path@) == Some(i as int),
                    None => scan(views.take(at as int), path@) is None,
                },
            decreases self.directives.len() - at,
        {
            let directive = &self.directives[at];
            assert(views.take(at + 1).drop_last() =~= views.take(at as int));
            let replaces = match best {
                Some(i) => self.directives[i].prefix.len() <= directive.prefix.len(),
                None => true,
            };
            if replaces && directive.matches_chars(&chars) {
                best = Some(at);
            }
            at = at + 1;
        }
        proof {
            assert(views.take(at as int) =~= views);
            lemma_scan_decides(views, path@);
        }
        match best {
            Some(i) => {
                proof {
                    lemma_threshold_of_deciding(self@, path@, i as int);
                }
                self.directives[i].level
            },
            None => {
                proof {
                    lemma_threshold_without_match(self@, path@);
                }
                match self.default {
                    Some(level) => level,
                    None => Level::unset(),
                }
            },
        }
    }

    /// The most verbose threshold among the default and all directives;
    /// `None` where the set holds neither.
    pub fn max_threshold(&self) -> (level: Option<Level>)
        ensures
            level == self@.max_threshold(),
    {
        let mut most: Option<Level> = self.default;
        let mut at: usize = 0;
        let ghost views = self@.directives;
        while at < self.directives.len()
            invariant
                at <= self.directives.len(),
                views == self@.directives,
                most is None ==> self.default is None && at == 0,
                most matches Some(m) ==> {
                    &&& self.default == Some(m) || exists|i: int|
                        0 <= i < at && (#[trigger] views[i]).level == m
                    &&& self.default matches Some(d) ==> d.rank() <= m.rank()
                    &&& forall|i: int| 0 <= i < at ==> (#[trigger] views[i]).level.rank() <= m.rank()
                },
            decreases self.directives.len() - at,
        {
            let level = self.directives[at].level;
            assert(views[at as int] == self.directives[at as int]@);
            most = match most {
                Some(m) => Some(m.most_verbose(level)),
                None => Some(level),
            };
            at = at + 1;
        }
        proof {
            match most {
                Some(m) => {
                    assert forall|other: Level| self@.holds(other) implies other.rank()
                        <= m.rank() by {}
                },
                None => {},
            }
        }
        most
    }

    /// The most verbose threshold that any module path can resolve to.
    pub fn ceiling(&self) -> (level: Level)
        ensures
            level == self@.ceiling(),
    {
        match self.max_threshold() {
            Some(level) => if self.default.is_some() {
                level
            } else {
                level.most_verbose(Level::unset())
            },
            None => Level::unset(),
        }
    }
}

} // verus!
