//! The filter module: a record passes only if every configured field
//! matches its pattern.

use vstd::prelude::*;

use crate::metadata::{extra_get, find_extra, Metadata, MetadataView};
use crate::pattern::{regex_compiles, regex_is_match, regex_matches, regex_valid};
use crate::text::str_equal;

verus! {

/// A pattern that a field must match, or must not match when inverted.
pub struct Filter {
    pattern: String,
    invert: bool,
}

/// A filter's pattern does not compile.
#[derive(Debug)]
pub struct InvalidPattern;

impl Filter {
    #[verifier::type_invariant]
    spec fn inv(self) -> bool {
        regex_valid(self.pattern@)
    }

    /// The pattern.
    pub closed spec fn pattern(self) -> Seq<char> {
        self.pattern@
    }

    /// Whether the filter is inverted.
    pub closed spec fn inverted(self) -> bool {
        self.invert
    }

    /// Makes a filter; refused when the pattern does not compile.
    pub fn new(pattern: String, invert: bool) -> (r: Result<Filter, InvalidPattern>)
        ensures
            r is Ok <==> regex_valid(pattern@),
            r matches Ok(f) ==> f.pattern() == pattern@ && f.inverted() == invert,
    {
        if regex_compiles(pattern.as_str()) {
            Ok(Filter { pattern, invert })
        } else {
            Err(InvalidPattern)
        }
    }

    /// Whether a present value passes: it matches the pattern, or does not
    /// when the filter is inverted.
    pub fn matches_str(&self, value: &str) -> (r: bool)
        ensures
            r == (regex_matches(self.pattern(), value@) != self.inverted()),
    {
        proof {
            use_type_invariant(self);
        }
        regex_is_match(self.pattern.as_str(), value) != self.invert
    }

    /// Whether a possibly absent value passes; an absent one never does.
    pub fn matches_opt(&self, value: Option<&str>) -> (r: bool)
        ensures
            r == filter_accepts(self.pattern(), self.inverted(), opt_str_view(value)),
    {
        match value {
            Some(v) => self.matches_str(v),
            None => false,
        }
    }
}

/// The view of an optional string slice.
pub open spec fn opt_str_view(o: Option<&str>) -> Option<Seq<char>> {
    match o {
        Some(s) => Some(s@),
        None => None,
    }
}

/// Whether a filter with this pattern and inversion passes the value.
pub open spec fn filter_accepts(pattern: Seq<char>, invert: bool, value: Option<Seq<char>>) -> bool {
    match value {
        Some(v) => regex_matches(pattern, v) != invert,
        None => false,
    }
}

/// The value a filter keyed `key` looks at: a named field of the record,
/// the status by its name, or else the extra field of that name.
pub open spec fn filter_field(m: MetadataView, key: Seq<char>) -> Option<Seq<char>> {
    if key == "player"@ {
        Some(m.player)
    } else if key == "id"@ {
        Some(m.id)
    } else if key == "status"@ {
        Some(m.status.name())
    } else if key == "title"@ {
        m.title
    } else if key == "album"@ {
        m.album
    } else if key == "artist"@ {
        m.artist
    } else if key == "url"@ {
        m.url
    } else if key == "art_url"@ {
        m.art_url
    } else {
        extra_get(m.extra, key)
    }
}

fn opt_as_str(o: &Option<String>) -> (r: Option<&str>)
    ensures
        opt_str_view(r) == crate::metadata::opt_view(*o),
{
    match o {
        Some(s) => Some(s.as_str()),
        None => None,
    }
}

/// The value a filter keyed `key` looks at.
pub fn filter_field_value<'a>(m: &'a Metadata, key: &str) -> (r: Option<&'a str>)
    ensures
        opt_str_view(r) == filter_field(m@, key@),
{
    if str_equal(key, "player") {
        Some(m.player.as_str())
    } else if str_equal(key, "id") {
        Some(m.id.as_str())
    } else if str_equal(key, "status") {
        Some(m.status.to_str())
    } else if str_equal(key, "title") {
        opt_as_str(&m.title)
    } else if str_equal(key, "album") {
        opt_as_str(&m.album)
    } else if str_equal(key, "artist") {
        opt_as_str(&m.artist)
    } else if str_equal(key, "url") {
        opt_as_str(&m.url)
    } else if str_equal(key, "art_url") {
        opt_as_str(&m.art_url)
    } else {
        match find_extra(&m.extra, key) {
            Some(i) => Some(m.extra[i].1.as_str()),
            None => None,
        }
    }
}

/// The filters of one filter module, by field name.
pub struct FilterSet {
    pub filters: Vec<(String, Filter)>,
}

/// Whether every filter of the list passes the record.
pub open spec fn all_accept(filters: Seq<(String, Filter)>, m: MetadataView) -> bool {
    forall|i: int|
        0 <= i < filters.len() ==> filter_accepts(
            (#[trigger] filters[i]).1.pattern(),
            filters[i].1.inverted(),
            filter_field(m, filters[i].0@),
        )
}

impl FilterSet {
    /// Whether no field has two filters (the filters of a module are kept by
    /// field name).
    pub open spec fn well_formed(self) -> bool {
        crate::keyed::names_unique(self.filters@)
    }

    /// A set with no filter.
    pub fn new() -> (r: FilterSet)
        ensures
            r.filters@.len() == 0,
            r.well_formed(),
    {
        FilterSet { filters: Vec::new() }
    }

    /// Sets the filter of field `name`, replacing one the field had.
    pub fn insert(&mut self, name: String, filter: Filter)
        requires
            old(self).well_formed(),
        ensures
            final(self).well_formed(),
            crate::keyed::has_name(old(self).filters@, name@) ==> exists|i: int|
                0 <= i < old(self).filters@.len() && (#[trigger] old(self).filters@[i]).0@ == name@
                    && final(self).filters@ == old(self).filters@.update(i, (name, filter)),
            !crate::keyed::has_name(old(self).filters@, name@) ==> final(self).filters@ == old(self).filters@.push(
                (name, filter),
            ),
    {
        crate::keyed::insert_named(&mut self.filters, name, filter);
    }

    /// Whether the record passes every filter.
    pub fn matches(&self, m: &Metadata) -> (r: bool)
        ensures
            r == all_accept(self.filters@, m@),
    {
        let mut r = true;
        let mut i: usize = 0;
        while i < self.filters.len()
            invariant
                i <= self.filters@.len(),
                r == all_accept(self.filters@.take(i as int), m@),
            decreases self.filters@.len() - i,
        {
            let entry = &self.filters[i];
            let value = filter_field_value(m, entry.0.as_str());
            let ok = entry.1.matches_opt(value);
            r = r && ok;
            proof {
                let t = self.filters@.take(i + 1);
                assert(t[i as int] == self.filters@[i as int]);
                if !ok {
                    assert(!filter_accepts(
                        t[i as int].1.pattern(),
                        t[i as int].1.inverted(),
                        filter_field(m@, t[i as int].0@),
                    ));
                }
                assert(forall|j: int| 0 <= j < i ==> t[j] == self.filters@.take(i as int)[j]);
            }
            i = i + 1;
        }
        assert(self.filters@.take(self.filters@.len() as int) == self.filters@);
        r
    }
}

/// An absent field passes no filter, inverted or not.
pub proof fn law_absent_field_rejected(pattern: Seq<char>, invert: bool)
    ensures
        !filter_accepts(pattern, invert, None),
{
}

/// On a present value, the inverted filter passes exactly what the plain
/// one refuses.
pub proof fn law_invert_flips(pattern: Seq<char>, value: Seq<char>)
    ensures
        filter_accepts(pattern, true, Some(value)) == !filter_accepts(pattern, false, Some(value)),
{
}

/// Which value of a record a filter keyed by a field name looks at: the
/// player, id and status (by its name) always, the title, album, artist,
/// url and art url when present.
pub proof fn law_filter_field_values(m: MetadataView)
    ensures
        filter_field(m, "player"@) == Some(m.player),
        filter_field(m, "id"@) == Some(m.id),
        filter_field(m, "status"@) == Some(m.status.name()),
        filter_field(m, "title"@) == m.title,
        filter_field(m, "album"@) == m.album,
        filter_field(m, "artist"@) == m.artist,
        filter_field(m, "url"@) == m.url,
        filter_field(m, "art_url"@) == m.art_url,
{
    crate::metadata::lemma_field_names_distinct();
}

/// A filter keyed by any other name looks at the extra field of that name.
pub proof fn law_filter_extra_field(m: MetadataView, key: Seq<char>)
    requires
        key != "player"@,
        key != "id"@,
        key != "status"@,
        key != "title"@,
        key != "album"@,
        key != "artist"@,
        key != "url"@,
        key != "art_url"@,
    ensures
        filter_field(m, key) == extra_get(m.extra, key),
{
}

/// A filter set of one album filter passes a record exactly when the record
/// has an album and the pattern matches it (or, inverted, does not).
pub proof fn law_single_album_filter(filters: Seq<(String, Filter)>, m: MetadataView)
    requires
        filters.len() == 1,
        filters[0].0@ == "album"@,
    ensures
        all_accept(filters, m) == (m.album matches Some(v) && regex_matches(filters[0].1.pattern(), v)
            != filters[0].1.inverted()),
{
    law_filter_field_values(m);
    assert(filter_field(m, filters[0].0@) == m.album);
}

/// A filter set passes a record exactly when each of its filters does: a
/// filter keyed `k` passes when the value at `k` is present and the pattern
/// matches it (or, inverted, does not).
pub proof fn law_all_filters_must_pass(filters: Seq<(String, Filter)>, m: MetadataView)
    ensures
        all_accept(filters, m) == (forall|i: int|
            0 <= i < filters.len() ==> (#[trigger] filter_field(m, filters[i].0@) matches Some(v) && regex_matches(
                filters[i].1.pattern(),
                v,
            ) != filters[i].1.inverted())),
{
    if all_accept(filters, m) {
        assert forall|i: int| 0 <= i < filters.len() implies (#[trigger] filter_field(m, filters[i].0@) matches Some(v)
            && regex_matches(filters[i].1.pattern(), v) != filters[i].1.inverted()) by {
            assert(filter_accepts(filters[i].1.pattern(), filters[i].1.inverted(), filter_field(m, filters[i].0@)));
        }
    }
}

} // verus!
