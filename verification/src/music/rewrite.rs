//! The rewrite module: fields are rewritten through regular expressions
//! with capture-group templates.

use vstd::prelude::*;

use crate::metadata::{extra_get, extra_index, find_extra, opt_view, Metadata, MetadataView};
use crate::pattern::{regex_compiles, regex_expand, regex_expansion, regex_valid};
use crate::text::str_equal;

verus! {

/// A rewrite rule: when the pattern matches, the field becomes the template
/// expanded with the pattern's captures.
pub struct Rule {
    pattern: String,
    rewrite: String,
}

/// A rule's pattern does not compile.
#[derive(Debug)]
pub struct InvalidRule;

impl Rule {
    #[verifier::type_invariant]
    spec fn inv(self) -> bool {
        regex_valid(self.pattern@)
    }

    /// The pattern.
    pub closed spec fn pattern(self) -> Seq<char> {
        self.pattern@
    }

    /// The replacement template.
    pub closed spec fn template(self) -> Seq<char> {
        self.rewrite@
    }

    /// Makes a rule; refused when the pattern does not compile.
    pub fn new(pattern: String, rewrite: String) -> (r: Result<Rule, InvalidRule>)
        ensures
            r is Ok <==> regex_valid(pattern@),
            r matches Ok(rule) ==> rule.pattern() == pattern@ && rule.template() == rewrite@,
    {
        if regex_compiles(pattern.as_str()) {
            Ok(Rule { pattern, rewrite })
        } else {
            Err(InvalidRule)
        }
    }

    /// The text `s` after the rule: the expansion when the pattern matches,
    /// else `s` unchanged.
    pub fn apply(&self, s: &str) -> (r: String)
        ensures
            r@ == rewrite_text(self.pattern(), self.template(), s@),
    {
        proof {
            use_type_invariant(self);
        }
        match regex_expand(self.pattern.as_str(), self.rewrite.as_str(), s) {
            Some(out) => out,
            None => s.to_owned(),
        }
    }

    fn apply_opt(&self, o: &Option<String>) -> (r: Option<String>)
        ensures
            opt_view(r) == rewrite_opt(self.pattern(), self.template(), opt_view(*o)),
    {
        match o {
            Some(s) => Some(self.apply(s.as_str())),
            None => None,
        }
    }
}

/// A text after a rule.
pub open spec fn rewrite_text(pattern: Seq<char>, template: Seq<char>, s: Seq<char>) -> Seq<
    char,
> {
    match regex_expansion(pattern, template, s) {
        Some(out) => out,
        None => s,
    }
}

/// An optional text after a rule; an absent one stays absent.
pub open spec fn rewrite_opt(
    pattern: Seq<char>,
    template: Seq<char>,
    o: Option<Seq<char>>,
) -> Option<Seq<char>> {
    match o {
        Some(s) => Some(rewrite_text(pattern, template, s)),
        None => None,
    }
}

/// The extra fields after a rule keyed `key`: the first field of that name
/// is rewritten, if there is one.
pub open spec fn rewrite_extra(
    extra: Seq<(Seq<char>, Seq<char>)>,
    key: Seq<char>,
    pattern: Seq<char>,
    template: Seq<char>,
) -> Seq<(Seq<char>, Seq<char>)> {
    match extra_index(extra, key) {
        Some(i) => extra.update(i, (extra[i].0, rewrite_text(pattern, template, extra[i].1))),
        None => extra,
    }
}

/// A record after one rule keyed `key`. The status and durations are never
/// rewritten; a key naming none of the text fields names an extra field.
pub open spec fn apply_rule(
    m: MetadataView,
    key: Seq<char>,
    pattern: Seq<char>,
    template: Seq<char>,
) -> MetadataView {
    if key == "player"@ {
        MetadataView { player: rewrite_text(pattern, template, m.player), ..m }
    } else if key == "id"@ {
        MetadataView { id: rewrite_text(pattern, template, m.id), ..m }
    } else if key == "title"@ {
        MetadataView { title: rewrite_opt(pattern, template, m.title), ..m }
    } else if key == "album"@ {
        MetadataView { album: rewrite_opt(pattern, template, m.album), ..m }
    } else if key == "artist"@ {
        MetadataView { artist: rewrite_opt(pattern, template, m.artist), ..m }
    } else if key == "url"@ {
        MetadataView { url: rewrite_opt(pattern, template, m.url), ..m }
    } else if key == "art_url"@ {
        MetadataView { art_url: rewrite_opt(pattern, template, m.art_url), ..m }
    } else {
        MetadataView { extra: rewrite_extra(m.extra, key, pattern, template), ..m }
    }
}

/// A record after the rules, applied in their order.
pub open spec fn apply_rules(rules: Seq<(String, Rule)>, m: MetadataView) -> MetadataView
    decreases rules.len(),
{
    if rules.len() == 0 {
        m
    } else {
        let last = rules.last();
        apply_rule(apply_rules(rules.drop_last(), m), last.0@, last.1.pattern(), last.1.template())
    }
}

/// Applies one rule keyed `key` to the record.
pub fn apply_rule_to(key: &str, rule: &Rule, m: &mut Metadata)
    ensures
        final(m)@ == apply_rule(old(m)@, key@, rule.pattern(), rule.template()),
{
    if str_equal(key, "player") {
        m.player = rule.apply(m.player.as_str());
    } else if str_equal(key, "id") {
        m.id = rule.apply(m.id.as_str());
    } else if str_equal(key, "title") {
        m.title = rule.apply_opt(&m.title);
    } else if str_equal(key, "album") {
        m.album = rule.apply_opt(&m.album);
    } else if str_equal(key, "artist") {
        m.artist = rule.apply_opt(&m.artist);
    } else if str_equal(key, "url") {
        m.url = rule.apply_opt(&m.url);
    } else if str_equal(key, "art_url") {
        m.art_url = rule.apply_opt(&m.art_url);
    } else {
        match find_extra(&m.extra, key) {
            Some(i) => {
                let name = m.extra[i].0.clone();
                let value = rule.apply(m.extra[i].1.as_str());
                let ghost before = m.extra@;
                m.extra.set(i, (name, value));
                proof {
                    let pv = crate::metadata::pairs_view(before);
                    assert(crate::metadata::pairs_view(m.extra@) == pv.update(
                        i as int,
                        (pv[i as int].0, rewrite_text(rule.pattern(), rule.template(), pv[i as int].1)),
                    ));
                }
            },
            None => {},
        }
    }
}

/// The rules of one rewrite module, by field name.
pub struct RuleSet {
    pub rules: Vec<(String, Rule)>,
}

impl RuleSet {
    /// Whether no field has two rules (the rules of a module are kept by
    /// field name).
    pub open spec fn well_formed(self) -> bool {
        crate::keyed::names_unique(self.rules@)
    }

    /// A set with no rule.
    pub fn new() -> (r: RuleSet)
        ensures
            r.rules@.len() == 0,
            r.well_formed(),
    {
        RuleSet { rules: Vec::new() }
    }

    /// Sets the rule of field `name`, replacing one the field had.
    pub fn insert(&mut self, name: String, rule: Rule)
        requires
            old(self).well_formed(),
        ensures
            final(self).well_formed(),
            crate::keyed::has_name(old(self).rules@, name@) ==> exists|i: int|
                0 <= i < old(self).rules@.len() && (#[trigger] old(self).rules@[i]).0@ == name@
                    && final(self).rules@ == old(self).rules@.update(i, (name, rule)),
            !crate::keyed::has_name(old(self).rules@, name@) ==> final(self).rules@ == old(self).rules@.push(
                (name, rule),
            ),
    {
        crate::keyed::insert_named(&mut self.rules, name, rule);
    }

    /// Rewrites the record with every rule, in order.
    pub fn rewrite(&self, m: &mut Metadata)
        ensures
            final(m)@ == apply_rules(self.rules@, old(m)@),
            old(m)@.well_formed() ==> final(m)@.well_formed(),
    {
        proof {
            lemma_rules_keep_names(self.rules@, old(m)@);
        }
        let mut i: usize = 0;
        while i < self.rules.len()
            invariant
                i <= self.rules@.len(),
                m@ == apply_rules(self.rules@.take(i as int), old(m)@),
            decreases self.rules@.len() - i,
        {
            let entry = &self.rules[i];
            apply_rule_to(entry.0.as_str(), &entry.1, m);
            assert(self.rules@.take(i + 1).drop_last() == self.rules@.take(i as int));
            i = i + 1;
        }
        assert(self.rules@.take(self.rules@.len() as int) == self.rules@);
    }
}

/// The extra fields after one rule have the names they had, in order.
proof fn lemma_rule_keeps_names(m: MetadataView, key: Seq<char>, pattern: Seq<char>, template: Seq<char>)
    ensures
        apply_rule(m, key, pattern, template).extra.len() == m.extra.len(),
        forall|i: int|
            0 <= i < m.extra.len() ==> (#[trigger] apply_rule(m, key, pattern, template).extra[i]).0 == m.extra[i].0,
{
    lemma_extra_index_bounds(m.extra, key);
}

/// The extra fields after the rules have the names they had, in order.
proof fn lemma_rules_keep_names(rules: Seq<(String, Rule)>, m: MetadataView)
    ensures
        apply_rules(rules, m).extra.len() == m.extra.len(),
        forall|i: int| 0 <= i < m.extra.len() ==> (#[trigger] apply_rules(rules, m).extra[i]).0 == m.extra[i].0,
        m.well_formed() ==> apply_rules(rules, m).well_formed(),
    decreases rules.len(),
{
    if rules.len() > 0 {
        let last = rules.last();
        let before = apply_rules(rules.drop_last(), m);
        lemma_rules_keep_names(rules.drop_last(), m);
        lemma_rule_keeps_names(before, last.0@, last.1.pattern(), last.1.template());
        let after = apply_rules(rules, m);
        assert(after == apply_rule(before, last.0@, last.1.pattern(), last.1.template()));
        assert forall|i: int| 0 <= i < m.extra.len() implies (#[trigger] after.extra[i]).0 == m.extra[i].0 by {
            assert(after.extra[i].0 == before.extra[i].0);
        }
        if m.well_formed() {
            assert forall|i: int, j: int| 0 <= i < j < after.extra.len() implies (#[trigger] after.extra[i]).0
                != (#[trigger] after.extra[j]).0 by {
                assert(after.extra[i].0 == m.extra[i].0);
                assert(after.extra[j].0 == m.extra[j].0);
                assert(m.extra[i].0 != m.extra[j].0);
            }
        }
    }
}

proof fn lemma_rewrite_extra_names(
    extra: Seq<(Seq<char>, Seq<char>)>,
    key: Seq<char>,
    pattern: Seq<char>,
    template: Seq<char>,
    other: Seq<char>,
)
    ensures
        rewrite_extra(extra, key, pattern, template).len() == extra.len(),
        extra_index(rewrite_extra(extra, key, pattern, template), other) == extra_index(extra, other),
{
    let after = rewrite_extra(extra, key, pattern, template);
    lemma_extra_index_bounds(extra, key);
    assert(after.len() == extra.len());
    assert forall|i: int| 0 <= i < extra.len() implies (#[trigger] after[i]).0 == extra[i].0 by {}
    lemma_same_names_same_index(extra, after, other);
}

proof fn lemma_same_names_same_index(a: Seq<(Seq<char>, Seq<char>)>, b: Seq<(Seq<char>, Seq<char>)>, k: Seq<char>)
    requires
        a.len() == b.len(),
        forall|i: int| 0 <= i < a.len() ==> (#[trigger] b[i]).0 == a[i].0,
    ensures
        extra_index(b, k) == extra_index(a, k),
    decreases a.len(),
{
    if a.len() > 0 {
        assert(b[0].0 == a[0].0);
        assert forall|i: int| 0 <= i < a.drop_first().len() implies (#[trigger] b.drop_first()[i]).0 == a.drop_first()[i].0 by {
            assert(b.drop_first()[i] == b[i + 1]);
        }
        lemma_same_names_same_index(a.drop_first(), b.drop_first(), k);
    }
}

proof fn lemma_extra_index_bounds(e: Seq<(Seq<char>, Seq<char>)>, k: Seq<char>)
    ensures
        extra_index(e, k) matches Some(i) ==> 0 <= i < e.len() && e[i].0 == k,
    decreases e.len(),
{
    if e.len() > 0 && e[0].0 != k {
        lemma_extra_index_bounds(e.drop_first(), k);
    }
}

/// Rules for two different fields give the same record whichever is
/// applied first: the rules of a module are kept by name, in no particular
/// order, and the result does not depend on one.
pub proof fn law_rules_commute(
    m: MetadataView,
    k1: Seq<char>,
    p1: Seq<char>,
    t1: Seq<char>,
    k2: Seq<char>,
    p2: Seq<char>,
    t2: Seq<char>,
)
    requires
        k1 != k2,
    ensures
        apply_rule(apply_rule(m, k1, p1, t1), k2, p2, t2) == apply_rule(apply_rule(m, k2, p2, t2), k1, p1, t1),
{
    let e = m.extra;
    lemma_rewrite_extra_names(e, k1, p1, t1, k2);
    lemma_rewrite_extra_names(e, k2, p2, t2, k1);
    lemma_extra_index_bounds(e, k1);
    lemma_extra_index_bounds(e, k2);
    let a = apply_rule(apply_rule(m, k1, p1, t1), k2, p2, t2);
    let b = apply_rule(apply_rule(m, k2, p2, t2), k1, p1, t1);
    assert(a.extra =~= b.extra);
    assert(a == b);
}

/// The rules with the neighbours at `i` and `i + 1` swapped.
pub open spec fn swap_neighbours(rules: Seq<(String, Rule)>, i: int) -> Seq<(String, Rule)> {
    rules.update(i, rules[i + 1]).update(i + 1, rules[i])
}

proof fn lemma_swapped_prefix(rules: Seq<(String, Rule)>, i: int, m: MetadataView, n: int)
    requires
        crate::keyed::names_unique(rules),
        0 <= i,
        i + 2 <= n <= rules.len(),
    ensures
        apply_rules(swap_neighbours(rules, i).take(n), m) == apply_rules(rules.take(n), m),
    decreases n,
{
    let s = rules;
    let t = swap_neighbours(rules, i);
    if n == i + 2 {
        let a = s[i];
        let b = s[i + 1];
        assert(s.take(n).drop_last().drop_last() == s.take(i));
        assert(t.take(n).drop_last().drop_last() == s.take(i));
        assert(s.take(n).last() == b && s.take(n).drop_last().last() == a);
        assert(t.take(n).last() == a && t.take(n).drop_last().last() == b);
        assert(a.0@ != b.0@);
        let p = apply_rules(s.take(i), m);
        assert(apply_rules(s.take(n).drop_last(), m) == apply_rule(p, a.0@, a.1.pattern(), a.1.template()));
        assert(apply_rules(t.take(n).drop_last(), m) == apply_rule(p, b.0@, b.1.pattern(), b.1.template()));
        law_rules_commute(p, a.0@, a.1.pattern(), a.1.template(), b.0@, b.1.pattern(), b.1.template());
    } else {
        lemma_swapped_prefix(rules, i, m, n - 1);
        assert(s.take(n).drop_last() == s.take(n - 1));
        assert(t.take(n).drop_last() == t.take(n - 1));
        assert(t.take(n).last() == s.take(n).last());
    }
}

/// In a rule set with one rule per field, swapping two neighbouring rules
/// gives the same record: the rules of a module are kept by name, in no
/// particular order, and the record after them does not depend on one.
pub proof fn law_rule_order_irrelevant(rules: Seq<(String, Rule)>, i: int, m: MetadataView)
    requires
        crate::keyed::names_unique(rules),
        0 <= i,
        i + 1 < rules.len(),
    ensures
        apply_rules(swap_neighbours(rules, i), m) == apply_rules(rules, m),
{
    lemma_swapped_prefix(rules, i, m, rules.len() as int);
    assert(rules.take(rules.len() as int) == rules);
    assert(swap_neighbours(rules, i).take(rules.len() as int) == swap_neighbours(rules, i));
}

/// The value a rule keyed `key` rewrites: a named text field, or else the
/// extra field of that name.
pub open spec fn rule_field(m: MetadataView, key: Seq<char>) -> Option<Seq<char>> {
    if key == "player"@ {
        Some(m.player)
    } else if key == "id"@ {
        Some(m.id)
    } else if key == "title"@ {
        m.title
    } else if key == "album"@ {
        m.album
    } else if key == "artist"@ {
        m.artist
    } else if key == "url"@ {
        m.url
    } else if key == "art_url"@ {
        m.art_url
    } else {
        extra_get(m.extra, key)
    }
}

proof fn lemma_rewrite_extra_get(
    e: Seq<(Seq<char>, Seq<char>)>,
    key: Seq<char>,
    pattern: Seq<char>,
    template: Seq<char>,
    k: Seq<char>,
)
    ensures
        extra_get(rewrite_extra(e, key, pattern, template), k) == (if k == key {
            rewrite_opt(pattern, template, extra_get(e, k))
        } else {
            extra_get(e, k)
        }),
    decreases e.len(),
{
    let after = rewrite_extra(e, key, pattern, template);
    if e.len() == 0 {
    } else if e[0].0 == key {
        assert(extra_index(e, key) == Some(0int));
        assert(after.drop_first() == e.drop_first());
    } else {
        lemma_rewrite_extra_get(e.drop_first(), key, pattern, template, k);
        lemma_extra_index_bounds(e, key);
        lemma_extra_index_bounds(e.drop_first(), key);
        let rest = rewrite_extra(e.drop_first(), key, pattern, template);
        assert(after.len() == e.len());
        assert(after[0] == e[0]);
        assert(after.drop_first() =~= rest);
    }
}

proof fn lemma_rule_field_step(m: MetadataView, key: Seq<char>, pattern: Seq<char>, template: Seq<char>, k: Seq<char>)
    ensures
        rule_field(apply_rule(m, key, pattern, template), k) == (if k == key {
            rewrite_opt(pattern, template, rule_field(m, k))
        } else {
            rule_field(m, k)
        }),
        apply_rule(m, key, pattern, template).status == m.status,
        apply_rule(m, key, pattern, template).position == m.position,
        apply_rule(m, key, pattern, template).length == m.length,
{
    lemma_rewrite_extra_get(m.extra, key, pattern, template, k);
}

/// What the rules of a module do to a record, field by field, when each
/// field has at most one rule: the status and durations are kept; a field
/// without a rule is kept; a field with a rule becomes that rule's rewrite
/// of it (an absent one stays absent, one the pattern does not match is
/// kept).
pub proof fn law_rewrite_fields(rules: Seq<(String, Rule)>, m: MetadataView, k: Seq<char>)
    requires
        crate::keyed::names_unique(rules),
    ensures
        apply_rules(rules, m).status == m.status,
        apply_rules(rules, m).position == m.position,
        apply_rules(rules, m).length == m.length,
        !crate::keyed::has_name(rules, k) ==> rule_field(apply_rules(rules, m), k) == rule_field(m, k),
        forall|j: int|
            0 <= j < rules.len() && (#[trigger] rules[j]).0@ == k ==> rule_field(apply_rules(rules, m), k)
                == rewrite_opt(rules[j].1.pattern(), rules[j].1.template(), rule_field(m, k)),
    decreases rules.len(),
{
    if rules.len() > 0 {
        let rest = rules.drop_last();
        let last = rules.last();
        assert(crate::keyed::names_unique(rest)) by {
            assert forall|a: int, b: int| 0 <= a < b < rest.len() implies (#[trigger] rest[a]).0@ != (#[trigger] rest[b]).0@ by {
                assert(rest[a] == rules[a] && rest[b] == rules[b]);
            }
        }
        law_rewrite_fields(rest, m, k);
        let before = apply_rules(rest, m);
        lemma_rule_field_step(before, last.0@, last.1.pattern(), last.1.template(), k);
        if k == last.0@ {
            assert(!crate::keyed::has_name(rest, k)) by {
                if crate::keyed::has_name(rest, k) {
                    let a = choose|a: int| 0 <= a < rest.len() && (#[trigger] rest[a]).0@ == k;
                    assert(rules[a] == rest[a]);
                    assert(rules[rules.len() - 1] == last);
                }
            }
            assert forall|j: int| 0 <= j < rules.len() && (#[trigger] rules[j]).0@ == k implies j == rules.len() - 1 by {
                if j < rules.len() - 1 {
                    assert(rules[rules.len() - 1] == last);
                }
            }
        } else {
            assert(crate::keyed::has_name(rules, k) ==> crate::keyed::has_name(rest, k)) by {
                if crate::keyed::has_name(rules, k) {
                    let a = choose|a: int| 0 <= a < rules.len() && (#[trigger] rules[a]).0@ == k;
                    assert(a < rules.len() - 1);
                    assert(rest[a] == rules[a]);
                }
            }
            assert forall|j: int| 0 <= j < rules.len() && (#[trigger] rules[j]).0@ == k implies j < rules.len() - 1
                && rest[j] == rules[j] by {}
        }
    }
}

/// Which value a rule keyed by a field name rewrites: the player, id,
/// title, album, artist, url or art url; any other name the extra field of
/// that name. The status is never one of them.
pub proof fn law_rule_field_values(m: MetadataView, key: Seq<char>)
    ensures
        rule_field(m, "player"@) == Some(m.player),
        rule_field(m, "id"@) == Some(m.id),
        rule_field(m, "title"@) == m.title,
        rule_field(m, "album"@) == m.album,
        rule_field(m, "artist"@) == m.artist,
        rule_field(m, "url"@) == m.url,
        rule_field(m, "art_url"@) == m.art_url,
        (key != "player"@ && key != "id"@ && key != "title"@ && key != "album"@ && key != "artist"@ && key != "url"@
            && key != "art_url"@) ==> rule_field(m, key) == extra_get(m.extra, key),
{
    crate::metadata::lemma_field_names_distinct();
}

/// One rule rewrites the field it is keyed by and leaves every other named
/// field as it was: an album rule, say, changes the album alone.
pub proof fn law_rule_touches_its_field(m: MetadataView, pattern: Seq<char>, template: Seq<char>)
    ensures
        apply_rule(m, "album"@, pattern, template) == (MetadataView {
            album: rewrite_opt(pattern, template, m.album),
            ..m
        }),
        apply_rule(m, "title"@, pattern, template) == (MetadataView {
            title: rewrite_opt(pattern, template, m.title),
            ..m
        }),
        apply_rule(m, "artist"@, pattern, template) == (MetadataView {
            artist: rewrite_opt(pattern, template, m.artist),
            ..m
        }),
        apply_rule(m, "player"@, pattern, template) == (MetadataView {
            player: rewrite_text(pattern, template, m.player),
            ..m
        }),
        apply_rule(m, "id"@, pattern, template) == (MetadataView { id: rewrite_text(pattern, template, m.id), ..m }),
        apply_rule(m, "url"@, pattern, template) == (MetadataView { url: rewrite_opt(pattern, template, m.url), ..m }),
        apply_rule(m, "art_url"@, pattern, template) == (MetadataView {
            art_url: rewrite_opt(pattern, template, m.art_url),
            ..m
        }),
{
    crate::metadata::lemma_field_names_distinct();
}

} // verus!
