//! The language-server presence: which document is being edited, in which
//! repository and language. The server's events change the state below;
//! after each, the state says whether the presence is to be set, cleared
//! or left alone.

use vstd::prelude::*;

use crate::activity::{large_image_assets, Activity, ActivityType, ActivityView, Assets, StatusDisplayType, Timestamps};
use crate::editor::{party_of_one, to_unix_secs, unix_secs};
use crate::keyed::{as_map, unique_keys};
use crate::metadata::{opt_view, pairs_view};
use crate::paths::{file_name, file_name_of, parent, parent_of, strip_prefix, stripped};
use crate::text::{owned, push_str};

verus! {

/// The text that `urlencoding::decode` gives for `s`, or `None` when the
/// decoded bytes are not UTF-8.
pub uninterp spec fn url_decoded(s: Seq<char>) -> Option<Seq<char>>;

/// Whether two paths are equal as `Path`s (component by component).
pub uninterp spec fn same_path(a: Seq<char>, b: Seq<char>) -> bool;

/// `urlencoding::decode`, copied into a `String`; `None` for its error.
#[verifier::external_body]
pub(crate) fn url_decode(s: &str) -> (r: Option<String>)
    ensures
        opt_view(r) == url_decoded(s@),
{
    match urlencoding::decode(s) {
        Ok(x) => Some(x.into_owned()),
        Err(_) => None,
    }
}

/// `<Path as PartialEq>::eq`: whether two paths have the same components
/// (two equal texts certainly do).
#[verifier::external_body]
pub(crate) fn path_eq(a: &str, b: &str) -> (r: bool)
    ensures
        r == same_path(a@, b@),
        a@ == b@ ==> r,
{
    std::path::Path::new(a) == std::path::Path::new(b)
}

/// A document as the client names it: its URI, and the path part of it
/// (still percent-encoded).
pub struct DocumentRef {
    pub uri: String,
    pub path: String,
}

/// What the presence shows of the active document.
pub struct ActivityParams {
    pub document_path: String,
    pub language: String,
}

/// What to do with the presence after an event.
pub enum PresenceUpdate {
    /// Show this document (and, once shown, [`LspState::commit`] it).
    Show(ActivityParams),
    /// The presence already shows this document.
    Skip,
    /// No document is active: clear the presence.
    Clear,
    /// The active document was never opened.
    NeverOpened,
    /// The active document's path does not decode to UTF-8.
    NonUtf8Path,
}

/// The mathematical content of a [`PresenceUpdate`].
pub enum PresenceUpdateView {
    Show(Seq<char>, Seq<char>),
    Skip,
    Clear,
    NeverOpened,
    NonUtf8Path,
}

impl View for PresenceUpdate {
    type V = PresenceUpdateView;

    open spec fn view(&self) -> PresenceUpdateView {
        match self {
            PresenceUpdate::Show(p) => PresenceUpdateView::Show(p.document_path@, p.language@),
            PresenceUpdate::Skip => PresenceUpdateView::Skip,
            PresenceUpdate::Clear => PresenceUpdateView::Clear,
            PresenceUpdate::NeverOpened => PresenceUpdateView::NeverOpened,
            PresenceUpdate::NonUtf8Path => PresenceUpdateView::NonUtf8Path,
        }
    }
}

/// What to do with the presence, given the open documents (URI to
/// language), the active document (URI and encoded path) and what the
/// presence shows (path and language).
pub open spec fn update_for(
    docs: Map<Seq<char>, Seq<char>>,
    active: Option<(Seq<char>, Seq<char>)>,
    shown: Option<(Seq<char>, Seq<char>)>,
) -> PresenceUpdateView {
    match active {
        None => PresenceUpdateView::Clear,
        Some((uri, path)) => if !docs.contains_key(uri) {
            PresenceUpdateView::NeverOpened
        } else {
            match url_decoded(path) {
                None => PresenceUpdateView::NonUtf8Path,
                Some(p) => match shown {
                    Some((sp, sl)) if (sp == p || same_path(sp, p)) && sl == docs[uri] => PresenceUpdateView::Skip,
                    _ => PresenceUpdateView::Show(p, docs[uri]),
                },
            }
        },
    }
}

/// The state of the language server.
pub struct LspState {
    client: Option<String>,
    start: u128,
    documents: Vec<(String, String)>,
    active_document: Option<DocumentRef>,
    last_activity_params: Option<ActivityParams>,
}

impl LspState {
    #[verifier::type_invariant]
    spec fn inv(self) -> bool {
        unique_keys(pairs_view(self.documents@))
    }

    /// The name of the client, once it has said it.
    pub closed spec fn client(self) -> Option<Seq<char>> {
        opt_view(self.client)
    }

    /// When the session started, in nanoseconds since the Unix epoch.
    pub closed spec fn start(self) -> u128 {
        self.start
    }

    /// The open documents: URI to language.
    pub closed spec fn documents(self) -> Map<Seq<char>, Seq<char>> {
        as_map(pairs_view(self.documents@))
    }

    /// The active document: URI and encoded path.
    pub closed spec fn active(self) -> Option<(Seq<char>, Seq<char>)> {
        match self.active_document {
            Some(d) => Some((d.uri@, d.path@)),
            None => None,
        }
    }

    /// What the presence was last set to show: path and language.
    pub closed spec fn shown(self) -> Option<(Seq<char>, Seq<char>)> {
        match self.last_activity_params {
            Some(p) => Some((p.document_path@, p.language@)),
            None => None,
        }
    }

    /// A session started at `start`, with nothing open or shown.
    pub fn new(start: u128) -> (r: LspState)
        ensures
            r.client() is None,
            r.start() == start,
            r.documents() == Map::<Seq<char>, Seq<char>>::empty(),
            r.active() is None,
            r.shown() is None,
    {
        let r = LspState {
            client: None,
            start,
            documents: Vec::new(),
            active_document: None,
            last_activity_params: None,
        };
        assert(r.documents() =~= Map::<Seq<char>, Seq<char>>::empty());
        r
    }

    /// The name of the client.
    pub fn client_name(&self) -> (r: Option<&str>)
        ensures
            match r {
                Some(s) => self.client() == Some(s@),
                None => self.client() is None,
            },
    {
        match &self.client {
            Some(s) => Some(s.as_str()),
            None => None,
        }
    }

    /// When the session started.
    pub fn start_time(&self) -> (r: u128)
        ensures
            r == self.start(),
    {
        self.start
    }

    /// What to do with the presence now.
    pub fn presence_update(&self) -> (r: PresenceUpdate)
        ensures
            r@ == update_for(self.documents(), self.active(), self.shown()),
    {
        proof {
            use_type_invariant(self);
        }
        match &self.active_document {
            None => PresenceUpdate::Clear,
            Some(doc) => {
                let language = match crate::keyed::get(&self.documents, doc.uri.as_str()) {
                    Some(l) => l,
                    None => {
                        return PresenceUpdate::NeverOpened;
                    },
                };
                proof {
                    crate::keyed::lemma_get_found(pairs_view(self.documents@), doc.uri@);
                    crate::keyed::lemma_map_entries(pairs_view(self.documents@), doc.uri@);
                }
                let path = match url_decode(doc.path.as_str()) {
                    Some(p) => p,
                    None => {
                        return PresenceUpdate::NonUtf8Path;
                    },
                };
                let same = match &self.last_activity_params {
                    Some(old) => (crate::text::str_equal(old.document_path.as_str(), path.as_str()) || path_eq(
                        old.document_path.as_str(),
                        path.as_str(),
                    )) && old.language == *language,
                    None => false,
                };
                if same {
                    PresenceUpdate::Skip
                } else {
                    PresenceUpdate::Show(ActivityParams { document_path: path, language: language.clone() })
                }
            },
        }
    }

    /// The client introduced itself at `now`.
    pub fn initialize(&mut self, client_name: Option<String>, now: u128)
        ensures
            final(self).client() == (if client_name is Some {
                opt_view(client_name)
            } else {
                old(self).client()
            }),
            final(self).start() == now,
            final(self).documents() == old(self).documents(),
            final(self).active() == old(self).active(),
            final(self).shown() == old(self).shown(),
    {
        proof {
            use_type_invariant(&*self);
        }
        if client_name.is_some() {
            self.client = client_name;
        }
        self.start = now;
    }

    /// A document was opened in `language`; it becomes the active one.
    pub fn did_open(&mut self, doc: DocumentRef, language: String) -> (r: PresenceUpdate)
        ensures
            final(self).documents() == old(self).documents().insert(doc.uri@, language@),
            final(self).active() == Some((doc.uri@, doc.path@)),
            final(self).client() == old(self).client(),
            final(self).start() == old(self).start(),
            final(self).shown() == old(self).shown(),
            r@ == update_for(final(self).documents(), final(self).active(), final(self).shown()),
    {
        proof {
            use_type_invariant(&*self);
        }
        let uri = doc.uri.clone();
        let mut documents: Vec<(String, String)> = Vec::new();
        assert(pairs_view(documents@) =~= Seq::<(Seq<char>, Seq<char>)>::empty());
        std::mem::swap(&mut documents, &mut self.documents);
        crate::keyed::insert(&mut documents, uri, language);
        self.documents = documents;
        self.active_document = Some(doc);
        self.presence_update()
    }

    /// A document was closed: no document is active any more.
    pub fn did_close(&mut self, uri: &str) -> (r: PresenceUpdate)
        ensures
            final(self).documents() == old(self).documents().remove(uri@),
            final(self).active() is None,
            final(self).client() == old(self).client(),
            final(self).start() == old(self).start(),
            final(self).shown() == old(self).shown(),
            r@ == PresenceUpdateView::Clear,
    {
        proof {
            use_type_invariant(&*self);
        }
        self.active_document = None;
        let mut documents: Vec<(String, String)> = Vec::new();
        assert(pairs_view(documents@) =~= Seq::<(Seq<char>, Seq<char>)>::empty());
        std::mem::swap(&mut documents, &mut self.documents);
        crate::keyed::remove(&mut documents, uri);
        self.documents = documents;
        self.presence_update()
    }

    /// The user turned to a document (changed, saved or hovered in it).
    pub fn set_focus(&mut self, doc: DocumentRef) -> (r: PresenceUpdate)
        ensures
            final(self).documents() == old(self).documents(),
            final(self).active() == Some((doc.uri@, doc.path@)),
            final(self).client() == old(self).client(),
            final(self).start() == old(self).start(),
            final(self).shown() == old(self).shown(),
            r@ == update_for(final(self).documents(), final(self).active(), final(self).shown()),
    {
        proof {
            use_type_invariant(&*self);
        }
        self.active_document = Some(doc);
        self.presence_update()
    }

    /// The client shuts the server down: every document is forgotten.
    pub fn shutdown(&mut self) -> (r: PresenceUpdate)
        ensures
            final(self).documents() == Map::<Seq<char>, Seq<char>>::empty(),
            final(self).active() is None,
            final(self).client() == old(self).client(),
            final(self).start() == old(self).start(),
            final(self).shown() == old(self).shown(),
            r@ == PresenceUpdateView::Clear,
    {
        proof {
            use_type_invariant(&*self);
        }
        self.active_document = None;
        let empty: Vec<(String, String)> = Vec::new();
        assert(pairs_view(empty@) =~= Seq::<(Seq<char>, Seq<char>)>::empty());
        self.documents = empty;
        assert(self.documents() =~= Map::<Seq<char>, Seq<char>>::empty());
        self.presence_update()
    }

    /// The presence now shows these parameters.
    pub fn commit(&mut self, params: ActivityParams)
        ensures
            final(self).shown() == Some((params.document_path@, params.language@)),
            final(self).documents() == old(self).documents(),
            final(self).active() == old(self).active(),
            final(self).client() == old(self).client(),
            final(self).start() == old(self).start(),
    {
        proof {
            use_type_invariant(&*self);
        }
        self.last_activity_params = Some(params);
    }
}

/// The details line for a document: "<repository>: <path in it>", else the
/// path relative to the home directory, else the path.
pub open spec fn document_details(path: Seq<char>, repo_root: Option<Seq<char>>, home: Option<Seq<char>>) -> Seq<char> {
    match repo_root {
        Some(r) if file_name_of(r) is Some => file_name_of(r)->0 + ": "@ + match stripped(path, r) {
            Some(x) => x,
            None => path,
        },
        _ => match home {
            Some(h) => match stripped(path, h) {
                Some(x) => x,
                None => path,
            },
            None => path,
        },
    }
}

/// The details line for a document.
pub fn details(path: &str, repo_root: Option<&str>, home: Option<&str>) -> (r: String)
    ensures
        r@ == document_details(
            path@,
            match repo_root {
                Some(s) => Some(s@),
                None => None,
            },
            match home {
                Some(s) => Some(s@),
                None => None,
            },
        ),
{
    if let Some(root) = repo_root {
        if let Some(name) = file_name(root) {
            let rel = match strip_prefix(path, root) {
                Some(x) => x,
                None => owned(path),
            };
            let mut s = name;
            push_str(&mut s, ": ");
            push_str(&mut s, rel.as_str());
            return s;
        }
    }
    match home {
        Some(h) => match strip_prefix(path, h) {
            Some(x) => x,
            None => owned(path),
        },
        None => owned(path),
    }
}

/// The directory in which the branch of a document is asked for: its
/// parent, or the path itself when it has none.
pub fn branch_dir(path: &str) -> (r: String)
    ensures
        r@ == match parent_of(path@) {
            Some(p) => p,
            None => path@,
        },
{
    match parent(path) {
        Some(p) => p,
        None => owned(path),
    }
}

/// The presence for a document: "playing" the client's name since the
/// session started, a party of one, the document as details, the branch as
/// state and the language as large image.
pub open spec fn lsp_activity_spec(
    client: Option<Seq<char>>,
    start: u128,
    path: Seq<char>,
    language: Seq<char>,
    repo_root: Option<Seq<char>>,
    home: Option<Seq<char>>,
    branch: Option<Seq<char>>,
) -> ActivityView {
    ActivityView {
        name: client,
        activity_type: Some(ActivityType::Playing),
        status_display_type: Some(StatusDisplayType::Name),
        timestamps: Some(Timestamps { start: Some(unix_secs(start)), end: None }),
        party: Some(crate::activity::PartyView { id: None, size: Some((1, 1)) }),
        details: Some(document_details(path, repo_root, home)),
        state: branch,
        assets: Some(large_image_assets(language)),
        ..crate::activity::empty_activity()
    }
}

/// The presence for a document.
pub fn lsp_activity(
    client: Option<&str>,
    start: u128,
    params: &ActivityParams,
    repo_root: Option<&str>,
    home: Option<&str>,
    branch: Option<String>,
) -> (r: Activity)
    ensures
        r@ == lsp_activity_spec(
            match client {
                Some(s) => Some(s@),
                None => None,
            },
            start,
            params.document_path@,
            params.language@,
            match repo_root {
                Some(s) => Some(s@),
                None => None,
            },
            match home {
                Some(s) => Some(s@),
                None => None,
            },
            opt_view(branch),
        ),
{
    let mut a = Activity::new();
    a.activity_type = Some(ActivityType::Playing);
    a.status_display_type = Some(StatusDisplayType::Name);
    a.timestamps = Some(Timestamps { start: Some(to_unix_secs(start)), end: None });
    a.party = Some(party_of_one());
    if let Some(c) = client {
        a.name = Some(owned(c));
    }
    a.details = Some(details(params.document_path.as_str(), repo_root, home));
    a.state = branch;
    a.assets = Some(Assets::large_image(params.language.clone()));
    a
}

/// Once the presence shows what an update asked for, the same state asks
/// for nothing more: no document is sent to Discord twice in a row.
pub proof fn law_no_repeated_update(
    docs: Map<Seq<char>, Seq<char>>,
    active: Option<(Seq<char>, Seq<char>)>,
    shown: Option<(Seq<char>, Seq<char>)>,
    path: Seq<char>,
    language: Seq<char>,
)
    requires
        update_for(docs, active, shown) == PresenceUpdateView::Show(path, language),
    ensures
        update_for(docs, active, Some((path, language))) == PresenceUpdateView::Skip,
{
}

/// With no active document the presence is cleared, whatever it showed.
pub proof fn law_no_active_document_clears(docs: Map<Seq<char>, Seq<char>>, shown: Option<(Seq<char>, Seq<char>)>)
    ensures
        update_for(docs, None, shown) == PresenceUpdateView::Clear,
{
}

/// What is shown is the active document: a "show" update carries the
/// decoded path of the active document and the language it was opened in,
/// and comes only for a document that was opened and whose path decodes.
pub proof fn law_show_is_active_document(
    docs: Map<Seq<char>, Seq<char>>,
    active: Option<(Seq<char>, Seq<char>)>,
    shown: Option<(Seq<char>, Seq<char>)>,
    path: Seq<char>,
    language: Seq<char>,
)
    requires
        update_for(docs, active, shown) == PresenceUpdateView::Show(path, language),
    ensures
        active matches Some(a) && docs.contains_key(a.0) && url_decoded(a.1) == Some(path) && language == docs[a.0],
        !(shown matches Some(s) && (s.0 == path || same_path(s.0, path)) && s.1 == language),
{
}

/// The details line of a document: inside a repository whose root has a
/// name, "<name>: <path in the repository>"; else the path relative to
/// home; else the path.
pub proof fn law_document_details(path: Seq<char>, repo_root: Option<Seq<char>>, home: Option<Seq<char>>)
    ensures
        (repo_root is Some && file_name_of(repo_root->0) is Some) ==> document_details(path, repo_root, home)
            == file_name_of(repo_root->0)->0 + ": "@ + (match stripped(path, repo_root->0) {
            Some(x) => x,
            None => path,
        }),
        (!(repo_root matches Some(r) && file_name_of(r) is Some) && home is Some && stripped(path, home->0) is Some)
            ==> document_details(path, repo_root, home) == stripped(path, home->0)->0,
        !(repo_root matches Some(r) && file_name_of(r) is Some) && !(home matches Some(h) && stripped(path, h) is Some)
            ==> document_details(path, repo_root, home) == path,
{
}

/// A language server's presence: "playing" the client's name since the
/// session started, a party of one, the document's details line, the
/// branch as state and the language as large image.
pub proof fn law_lsp_presence(
    client: Option<Seq<char>>,
    start: u128,
    path: Seq<char>,
    language: Seq<char>,
    repo_root: Option<Seq<char>>,
    home: Option<Seq<char>>,
    branch: Option<Seq<char>>,
)
    ensures
        ({
            let a = lsp_activity_spec(client, start, path, language, repo_root, home, branch);
            &&& a.name == client
            &&& a.activity_type == Some(ActivityType::Playing)
            &&& a.status_display_type == Some(StatusDisplayType::Name)
            &&& a.timestamps == Some(Timestamps { start: Some(unix_secs(start)), end: None })
            &&& a.details == Some(document_details(path, repo_root, home))
            &&& a.state == branch
            &&& a.assets == Some(large_image_assets(language))
        }),
{
}

} // verus!
