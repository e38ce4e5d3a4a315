//! The fixup-id module: a record's identifier is replaced by a hash of the
//! fields it is sensitive to, for players that report unreliable track ids.

use std::hash::{DefaultHasher, Hasher};
use vstd::prelude::*;
use vstd::std_specs::hash::DefaultHasherAdditionalSpecFns;

use crate::hashing::{hash_opt_str, hash_str, opt_str_hash_writes, str_hash_writes};
use crate::metadata::{extra_get, get_extra, opt_view, Metadata, MetadataView};
use crate::text::{format_hex16, hex16, owned, push_char, push_str, str_equal};

verus! {

/// One value fed into the hash: a field that is always present, or one that
/// may be absent (which hashes differently from an empty text).
#[derive(Debug)]
pub enum HashInput {
    Text(String),
    OptText(Option<String>),
}

/// The mathematical content of a [`HashInput`].
pub enum HashInputView {
    Text(Seq<char>),
    OptText(Option<Seq<char>>),
}

impl View for HashInput {
    type V = HashInputView;

    open spec fn view(&self) -> HashInputView {
        match self {
            HashInput::Text(s) => HashInputView::Text(s@),
            HashInput::OptText(o) => HashInputView::OptText(opt_view(*o)),
        }
    }
}

/// What a sensitivity entry contributes to the hash: the player and id as
/// texts, the other named fields and extra fields as optional texts.
pub open spec fn hash_input(m: MetadataView, field: Seq<char>) -> HashInputView {
    if field == "player"@ {
        HashInputView::Text(m.player)
    } else if field == "id"@ {
        HashInputView::Text(m.id)
    } else if field == "title"@ {
        HashInputView::OptText(m.title)
    } else if field == "album"@ {
        HashInputView::OptText(m.album)
    } else if field == "artist"@ {
        HashInputView::OptText(m.artist)
    } else if field == "url"@ {
        HashInputView::OptText(m.url)
    } else if field == "art_url"@ {
        HashInputView::OptText(m.art_url)
    } else {
        HashInputView::OptText(extra_get(m.extra, field))
    }
}

/// The value a sensitivity entry contributes to the hash.
pub fn hash_input_of(m: &Metadata, field: &str) -> (r: HashInput)
    ensures
        r@ == hash_input(m@, field@),
{
    if str_equal(field, "player") {
        HashInput::Text(m.player.clone())
    } else if str_equal(field, "id") {
        HashInput::Text(m.id.clone())
    } else if str_equal(field, "title") {
        HashInput::OptText(crate::metadata::clone_opt(&m.title))
    } else if str_equal(field, "album") {
        HashInput::OptText(crate::metadata::clone_opt(&m.album))
    } else if str_equal(field, "artist") {
        HashInput::OptText(crate::metadata::clone_opt(&m.artist))
    } else if str_equal(field, "url") {
        HashInput::OptText(crate::metadata::clone_opt(&m.url))
    } else if str_equal(field, "art_url") {
        HashInput::OptText(crate::metadata::clone_opt(&m.art_url))
    } else {
        HashInput::OptText(get_extra(&m.extra, field))
    }
}

/// The values hashed for a record, one per sensitivity entry, in order.
pub fn hash_inputs(m: &Metadata, sensitivity: &Vec<String>) -> (r: Vec<HashInput>)
    ensures
        r@.len() == sensitivity@.len(),
        forall|i: int|
            0 <= i < r@.len() ==> (#[trigger] r@[i])@ == hash_input(m@, sensitivity@[i]@),
{
    let mut r: Vec<HashInput> = Vec::new();
    let mut i: usize = 0;
    while i < sensitivity.len()
        invariant
            i <= sensitivity@.len(),
            r@.len() == i,
            forall|j: int| 0 <= j < i ==> (#[trigger] r@[j])@ == hash_input(m@, sensitivity@[j]@),
        decreases sensitivity@.len() - i,
    {
        r.push(hash_input_of(m, sensitivity[i].as_str()));
        i = i + 1;
    }
    r
}

/// The fields a fixup-id module is sensitive to unless configured
/// otherwise: id, title, album and artist.
pub fn default_sensitivity_list() -> (r: Vec<String>)
    ensures
        r@.len() == 4,
        r@[0]@ == "id"@,
        r@[1]@ == "title"@,
        r@[2]@ == "album"@,
        r@[3]@ == "artist"@,
{
    let mut r: Vec<String> = Vec::new();
    r.push(owned("id"));
    r.push(owned("title"));
    r.push(owned("album"));
    r.push(owned("artist"));
    r
}

fn opt_as_str(o: &Option<String>) -> (r: Option<&str>)
    ensures
        crate::music::filter::opt_str_view(r) == crate::metadata::opt_view(*o),
{
    match o {
        Some(s) => Some(s.as_str()),
        None => None,
    }
}

/// The writes one value makes into the hasher: a text through `str`'s
/// `Hash`, an optional text through `Option`'s.
pub open spec fn input_writes(i: HashInputView) -> Seq<Seq<u8>> {
    match i {
        HashInputView::Text(s) => str_hash_writes(s),
        HashInputView::OptText(o) => opt_str_hash_writes(o),
    }
}

/// The writes the values for the first `n` sensitivity entries make, in
/// order.
pub open spec fn sensitivity_writes(m: MetadataView, sensitivity: Seq<Seq<char>>, n: nat) -> Seq<Seq<u8>>
    decreases n,
{
    if n == 0 {
        Seq::empty()
    } else {
        sensitivity_writes(m, sensitivity, (n - 1) as nat) + input_writes(hash_input(m, sensitivity[n - 1]))
    }
}

/// The hash of a record's sensitive fields: `DefaultHasher`'s hash of the
/// value of each sensitivity entry, in order.
pub open spec fn metadata_hash(m: MetadataView, sensitivity: Seq<Seq<char>>) -> u64 {
    DefaultHasher::spec_finish(sensitivity_writes(m, sensitivity, sensitivity.len()))
}

/// The names of a sensitivity list.
pub open spec fn names(sensitivity: Seq<String>) -> Seq<Seq<char>> {
    sensitivity.map_values(|s: String| s@)
}

/// Hashes the record's sensitive fields with std's `DefaultHasher`.
pub fn hash_metadata(m: &Metadata, sensitivity: &Vec<String>) -> (r: u64)
    ensures
        r == metadata_hash(m@, names(sensitivity@)),
{
    let inputs = hash_inputs(m, sensitivity);
    let ghost sv = names(sensitivity@);
    let mut hasher = DefaultHasher::new();
    let mut i: usize = 0;
    while i < inputs.len()
        invariant
            i <= inputs@.len(),
            inputs@.len() == sensitivity@.len(),
            sv == names(sensitivity@),
            forall|j: int| 0 <= j < inputs@.len() ==> (#[trigger] inputs@[j])@ == hash_input(m@, sensitivity@[j]@),
            hasher@ == sensitivity_writes(m@, sv, i as nat),
        decreases inputs@.len() - i,
    {
        assert(inputs@[i as int]@ == hash_input(m@, sv[i as int]));
        match &inputs[i] {
            HashInput::Text(s) => hash_str(&mut hasher, s.as_str()),
            HashInput::OptText(o) => hash_opt_str(&mut hasher, opt_as_str(o)),
        }
        i = i + 1;
    }
    hasher.finish()
}

/// The identifier a fixup-id module gives: sixteen hex digits between angle
/// brackets.
pub open spec fn fixed_id(h: u64) -> Seq<char> {
    seq!['<'] + hex16(h) + seq!['>']
}

/// Replaces the record's identifier with the hash of its sensitive fields;
/// every other field stays as it was.
pub fn fixup_id(m: &mut Metadata, sensitivity: &Vec<String>)
    ensures
        final(m)@ == (MetadataView { id: final(m)@.id, ..old(m)@ }),
        final(m)@.id == fixed_id(metadata_hash(old(m)@, names(sensitivity@))),
{
    let h = hash_metadata(m, sensitivity);
    let mut id = String::new();
    push_char(&mut id, '<');
    let digits = format_hex16(h);
    push_str(&mut id, digits.as_str());
    push_char(&mut id, '>');
    assert(id@ == fixed_id(h));
    m.id = id;
}

proof fn lemma_same_writes(m1: MetadataView, m2: MetadataView, sensitivity: Seq<Seq<char>>, n: nat)
    requires
        n <= sensitivity.len(),
        forall|j: int| 0 <= j < n ==> hash_input(m1, #[trigger] sensitivity[j]) == hash_input(m2, sensitivity[j]),
    ensures
        sensitivity_writes(m1, sensitivity, n) == sensitivity_writes(m2, sensitivity, n),
    decreases n,
{
    if n > 0 {
        lemma_same_writes(m1, m2, sensitivity, (n - 1) as nat);
        assert(hash_input(m1, sensitivity[n - 1]) == hash_input(m2, sensitivity[n - 1]));
    }
}

/// Two records whose values agree on every sensitivity entry hash alike, so
/// the fixup-id module gives them the same identifier, whatever their other
/// fields.
pub proof fn law_id_depends_only_on_sensitive_fields(m1: MetadataView, m2: MetadataView, sensitivity: Seq<Seq<char>>)
    requires
        forall|j: int|
            0 <= j < sensitivity.len() ==> hash_input(m1, #[trigger] sensitivity[j]) == hash_input(m2, sensitivity[j]),
    ensures
        metadata_hash(m1, sensitivity) == metadata_hash(m2, sensitivity),
        fixed_id(metadata_hash(m1, sensitivity)) == fixed_id(metadata_hash(m2, sensitivity)),
{
    lemma_same_writes(m1, m2, sensitivity, sensitivity.len());
}

/// What each sensitivity entry feeds into the hash: the player and id as
/// texts; the title, album, artist, url and art url as optional texts; any
/// other name the extra field of that name, as an optional text.
pub proof fn law_hash_input_values(m: MetadataView, key: Seq<char>)
    ensures
        hash_input(m, "player"@) == HashInputView::Text(m.player),
        hash_input(m, "id"@) == HashInputView::Text(m.id),
        hash_input(m, "title"@) == HashInputView::OptText(m.title),
        hash_input(m, "album"@) == HashInputView::OptText(m.album),
        hash_input(m, "artist"@) == HashInputView::OptText(m.artist),
        hash_input(m, "url"@) == HashInputView::OptText(m.url),
        hash_input(m, "art_url"@) == HashInputView::OptText(m.art_url),
        (key != "player"@ && key != "id"@ && key != "title"@ && key != "album"@ && key != "artist"@ && key != "url"@
            && key != "art_url"@) ==> hash_input(m, key) == HashInputView::OptText(extra_get(m.extra, key)),
{
    crate::metadata::lemma_field_names_distinct();
}

/// Records that differ in a field named in the sensitivity list differ in
/// what is fed into the hash: the album, say, is hashed when the list names
/// it.
pub proof fn law_named_field_is_hashed(m1: MetadataView, m2: MetadataView, sensitivity: Seq<Seq<char>>, j: int)
    requires
        0 <= j < sensitivity.len(),
        sensitivity[j] == "album"@ ==> m1.album != m2.album,
        sensitivity[j] == "title"@ ==> m1.title != m2.title,
        sensitivity[j] == "artist"@ ==> m1.artist != m2.artist,
        sensitivity[j] == "id"@ ==> m1.id != m2.id,
        sensitivity[j] == "player"@ ==> m1.player != m2.player,
        sensitivity[j] == "url"@ ==> m1.url != m2.url,
        sensitivity[j] == "art_url"@ ==> m1.art_url != m2.art_url,
        sensitivity[j] == "album"@ || sensitivity[j] == "title"@ || sensitivity[j] == "artist"@ || sensitivity[j]
            == "id"@ || sensitivity[j] == "player"@ || sensitivity[j] == "url"@ || sensitivity[j] == "art_url"@,
    ensures
        hash_input(m1, sensitivity[j]) != hash_input(m2, sensitivity[j]),
{
    law_hash_input_values(m1, sensitivity[j]);
    law_hash_input_values(m2, sensitivity[j]);
}

} // verus!
