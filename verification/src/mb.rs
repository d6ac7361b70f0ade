//! The release graph delivered by the metadata service, and the release
//! matcher: narrowing the graph to the one medium whose embedded disc entry
//! carries the current disc's identifier.
//!
//! The HTTP transport and the JSON decoding stay outside this library; it
//! receives the decoded graph as plain values.

use crate::errors::RipError;
use crate::text::str_eq;
use vstd::prelude::*;
use vstd::string::StringExecFns;

verus! {

/// A client of the metadata service: the base URL and the identifying
/// User-Agent header value that every request carries.
pub struct Client {
    pub root_url: String,
    pub user_agent: String,
}

impl Client {
    /// A client of the public service under its default base URL. The
    /// User-Agent identifies this tool as the service's etiquette asks:
    /// its name and version, then its home page in parentheses.
    pub fn new() -> (r: Self)
        ensures
            r.root_url@ == "https://musicbrainz.org/ws/2"@,
            r.user_agent@ == "cdrip/0.1.0 ( https://cdrip.example )"@,
    {
        Client {
            root_url: String::from_str("https://musicbrainz.org/ws/2"),
            user_agent: String::from_str("cdrip/0.1.0 ( https://cdrip.example )"),
        }
    }

    pub fn set_root_url(&mut self, root_url: String)
        ensures
            final(self).root_url == root_url,
            final(self).user_agent == old(self).user_agent,
    {
        self.root_url = root_url;
    }

    pub fn set_user_agent(&mut self, user_agent: String)
        ensures
            final(self).user_agent == user_agent,
            final(self).root_url == old(self).root_url,
    {
        self.user_agent = user_agent;
    }

    /// The full URL of a GET request for the given path and query.
    pub fn get_url(&self, path_and_query: &str) -> (r: String)
        ensures
            r@ == self.root_url@ + "/"@ + path_and_query@,
    {
        let mut s = self.root_url.clone();
        s.append("/");
        s.append(path_and_query);
        s
    }
}

/// The path and query of a disc-id lookup: the disc identifier with the
/// artist-credit, recording and label sub-resources requested inline.
pub fn lookup_path(disc_id: &str) -> (r: String)
    ensures
        r@ == "discid/"@ + disc_id@ + "?inc=artist-credits+recordings+labels"@,
{
    let mut s = String::from_str("discid/");
    s.append(disc_id);
    s.append("?inc=artist-credits+recordings+labels");
    s
}

/// The decoded response of a disc-id lookup: the candidate releases.
pub struct DiscId {
    pub id: String,
    pub releases: Vec<Release>,
}

pub struct Release {
    pub artist_credit: Vec<ArtistCredit>,
    pub asin: Option<String>,
    pub barcode: Option<String>,
    pub country: Option<String>,
    pub cover_art_archive: Option<CoverArtArchive>,
    pub date: String,
    pub disambiguation: String,
    pub id: String,
    pub label_info: Vec<LabelInfo>,
    pub media: Vec<Media>,
    pub packaging: Option<String>,
    pub packaging_id: Option<String>,
    pub quality: String,
    pub title: String,
}

pub struct ArtistCredit {
    pub artist: Artist,
    pub joinphrase: String,
    pub name: String,
}

pub struct Artist {
    pub disambiguation: String,
    pub id: String,
    pub name: String,
    pub sort_name: String,
    pub type_: String,
    pub type_id: String,
}

pub struct CoverArtArchive {
    pub artwork: bool,
    pub back: bool,
    pub count: u32,
    pub darkened: bool,
    pub front: bool,
}

pub struct LabelInfo {
    pub catalog_number: Option<String>,
    pub label: Label,
}

pub struct Label {
    pub disambiguation: String,
    pub id: String,
    pub label_code: Option<String>,
    pub name: String,
    pub sort_name: String,
    pub type_: Option<String>,
    pub type_id: Option<String>,
}

pub struct Media {
    pub format: String,
    pub format_id: String,
    pub position: u32,
    pub title: String,
    pub track_count: u32,
    pub track_offset: u32,
    pub discs: Vec<Disc>,
    pub tracks: Vec<Track>,
}

pub struct Disc {
    pub offset_count: u32,
    pub id: String,
    pub offsets: Vec<u32>,
}

pub struct Track {
    pub artist_credit: Vec<ArtistCredit>,
    pub id: String,
    pub number: String,
    pub position: u32,
    pub recording: Recording,
    pub title: String,
}

pub struct Recording {
    pub artist_credit: Vec<ArtistCredit>,
    pub disambiguation: String,
    pub id: String,
    pub title: String,
}

/// The credited-artist string: each credit's name immediately followed by its
/// literal join-phrase, in order, with nothing added between them.
pub open spec fn spec_artist_string(credits: Seq<ArtistCredit>) -> Seq<char>
    decreases credits.len(),
{
    if credits.len() == 0 {
        Seq::empty()
    } else {
        spec_artist_string(credits.drop_last()) + credits.last().name@
            + credits.last().joinphrase@
    }
}

/// The first catalog number of a release, or nothing.
pub open spec fn spec_catalog_number(r: Release) -> Option<Seq<char>> {
    if r.label_info@.len() > 0 && r.label_info@[0].catalog_number is Some {
        Some(r.label_info@[0].catalog_number->0@)
    } else {
        None
    }
}

/// The human-readable summary shown to the operator for one candidate
/// release; an absent catalog number or barcode is shown empty.
pub open spec fn spec_release_summary(r: Release) -> Seq<char> {
    "MBID: "@ + r.id@ + "\n  - Artist: "@ + spec_artist_string(r.artist_credit@)
        + "\n  - Title: "@ + r.title@ + "\n  - Catalog Number: "@ + (
    match spec_catalog_number(r) {
        Some(c) => c,
        None => Seq::empty(),
    }) + "\n  - Barcode: "@ + (match r.barcode {
        Some(b) => b@,
        None => Seq::empty(),
    })
}

impl Release {
    /// Concatenates each artist credit's name and join-phrase, in order.
    pub fn artist_string(&self) -> (r: String)
        ensures
            r@ == spec_artist_string(self.artist_credit@),
    {
        let mut s = String::new();
        let mut i: usize = 0;
        while i < self.artist_credit.len()
            invariant
                i <= self.artist_credit@.len(),
                s@ == spec_artist_string(self.artist_credit@.take(i as int)),
            decreases self.artist_credit@.len() - i,
        {
            let credit = &self.artist_credit[i];
            s.append(credit.name.as_str());
            s.append(credit.joinphrase.as_str());
            proof {
                assert(self.artist_credit@.take(i + 1 as int).drop_last() =~= self.artist_credit@
                    .take(i as int));
                assert(s@ =~= spec_artist_string(self.artist_credit@.take(i + 1 as int)));
            }
            i += 1;
        }
        proof {
            assert(self.artist_credit@.take(self.artist_credit@.len() as int)
                =~= self.artist_credit@);
        }
        s
    }

    /// The catalog number of the first label entry, if one is present.
    pub fn catalog_number(&self) -> (r: Option<&str>)
        ensures
            r is Some <==> spec_catalog_number(*self) is Some,
            r matches Some(c) ==> spec_catalog_number(*self) matches Some(sc) && c@ == sc,
    {
        if self.label_info.len() > 0 {
            let first = &self.label_info[0];
            match &first.catalog_number {
                Some(c) => Some(c.as_str()),
                None => None,
            }
        } else {
            None
        }
    }

    /// Builds the summary line block for this release.
    pub fn summary(&self) -> (r: String)
        ensures
            r@ == spec_release_summary(*self),
    {
        let mut s = String::from_str("MBID: ");
        s.append(self.id.as_str());
        s.append("\n  - Artist: ");
        let artist = self.artist_string();
        s.append(artist.as_str());
        s.append("\n  - Title: ");
        s.append(self.title.as_str());
        s.append("\n  - Catalog Number: ");
        match self.catalog_number() {
            Some(c) => s.append(c),
            None => (),
        }
        s.append("\n  - Barcode: ");
        match &self.barcode {
            Some(b) => s.append(b.as_str()),
            None => (),
        }
        proof {
            assert(s@ =~= spec_release_summary(*self));
        }
        s
    }
}

/// One summary per candidate release, in order; fails with `NoReleaseFound`
/// exactly when the graph holds no candidate, before any selection prompt
/// can be shown (there is nothing to show).
pub fn release_summaries(graph: &DiscId) -> (r: Result<Vec<String>, RipError>)
    ensures
        r is Err <==> graph.releases@.len() == 0,
        r matches Err(e) ==> e is NoReleaseFound,
        r matches Ok(v) ==> v@.len() == graph.releases@.len() && forall|j: int|
            0 <= j < v@.len() ==> v@[j]@ == spec_release_summary(graph.releases@[j]),
{
    if graph.releases.len() == 0 {
        return Err(RipError::NoReleaseFound);
    }
    let mut out: Vec<String> = Vec::new();
    let mut i: usize = 0;
    while i < graph.releases.len()
        invariant
            i <= graph.releases@.len(),
            out@.len() == i,
            forall|j: int| 0 <= j < i ==> out@[j]@ == spec_release_summary(graph.releases@[j]),
        decreases graph.releases@.len() - i,
    {
        let release = &graph.releases[i];
        let line = release.summary();
        out.push(line);
        i += 1;
    }
    Ok(out)
}

/// Whether one medium's embedded disc entries carry the given disc
/// identifier.
pub open spec fn spec_medium_matches(m: Media, disc_id: Seq<char>) -> bool {
    exists|k: int| 0 <= k < m.discs@.len() && m.discs@[k].id@ == disc_id
}

fn medium_matches(m: &Media, disc_id: &str) -> (r: bool)
    ensures
        r == spec_medium_matches(*m, disc_id@),
{
    let mut k: usize = 0;
    while k < m.discs.len()
        invariant
            k <= m.discs@.len(),
            forall|j: int| 0 <= j < k ==> m.discs@[j].id@ != disc_id@,
        decreases m.discs@.len() - k,
    {
        let disc = &m.discs[k];
        if str_eq(disc.id.as_str(), disc_id) {
            return true;
        }
        k += 1;
    }
    false
}

/// Finds the single medium of the chosen release whose disc entries carry
/// the current disc identifier: the first such medium's index, or
/// `NoMatchingMedium` when none exists.
pub fn find_matching_medium(release: &Release, disc_id: &str) -> (r: Result<usize, RipError>)
    ensures
        r is Ok <==> exists|j: int|
            0 <= j < release.media@.len() && spec_medium_matches(release.media@[j], disc_id@),
        r matches Ok(i) ==> i < release.media@.len() && spec_medium_matches(
            release.media@[i as int],
            disc_id@,
        ) && forall|j: int| 0 <= j < i ==> !spec_medium_matches(release.media@[j], disc_id@),
        r matches Err(e) ==> e is NoMatchingMedium,
{
    let mut i: usize = 0;
    while i < release.media.len()
        invariant
            i <= release.media@.len(),
            forall|j: int| 0 <= j < i ==> !spec_medium_matches(release.media@[j], disc_id@),
        decreases release.media@.len() - i,
    {
        let medium = &release.media[i];
        if medium_matches(medium, disc_id) {
            return Ok(i);
        }
        i += 1;
    }
    Err(RipError::NoMatchingMedium)
}

} // verus!
