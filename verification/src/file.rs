//! The local file index: names found in one directory, the difference
//! against the stored link set, and the upload batch bookkeeping.
use crate::authorize::AuthorizedUser;
use crate::document::{upload_body, upload_headers, DocInfo, DocumentLinks};
use crate::encode::json_parsed_string;
use crate::error::LinkError;
use crate::names::{lookup, NameMap};
use crate::request::{HttpRequest, Method};
use vstd::prelude::*;

verus! {

/// The entries whose key no stored link carries, in their original order.
pub open spec fn kept_entries(
    s: Seq<(String, String)>,
    links: Seq<(String, String)>,
) -> Seq<(String, String)>
    decreases s.len(),
{
    if s.len() == 0 {
        Seq::<(String, String)>::empty()
    } else if lookup(links, s.last().0@) is None {
        kept_entries(s.drop_last(), links).push(s.last())
    } else {
        kept_entries(s.drop_last(), links)
    }
}

/// Every kept entry stems from the original list, and unique keys stay
/// unique.
pub proof fn lemma_kept_entries(s: Seq<(String, String)>, links: Seq<(String, String)>)
    requires
        crate::names::keys_unique(s),
    ensures
        crate::names::keys_unique(kept_entries(s, links)),
        forall|a: int|
            0 <= a < kept_entries(s, links).len() ==> (exists|j: int|
                0 <= j < s.len() && #[trigger] kept_entries(s, links)[a] == #[trigger] s[j]),
    decreases s.len(),
{
    if s.len() > 0 {
        let front_src = s.drop_last();
        assert(crate::names::keys_unique(front_src)) by {
            assert forall|a: int, b: int|
                0 <= a < b < front_src.len() implies front_src[a].0@ != front_src[b].0@ by {
                assert(front_src[a] == s[a] && front_src[b] == s[b]);
            }
        }
        lemma_kept_entries(front_src, links);
        let front = kept_entries(front_src, links);
        let kept = kept_entries(s, links);
        assert forall|a: int|
            0 <= a < kept.len() implies (exists|j: int|
            0 <= j < s.len() && #[trigger] kept[a] == #[trigger] s[j]) by {
            if a < front.len() {
                assert(kept[a] == front[a]);
                let j = choose|j: int| 0 <= j < front_src.len() && front[a] == front_src[j];
                assert(front_src[j] == s[j]);
                assert(kept[a] == s[j]);
            } else {
                assert(kept[a] == s[s.len() - 1]);
            }
        }
        if lookup(links, s.last().0@) is None {
            assert forall|a: int, b: int|
                0 <= a < b < kept.len() implies kept[a].0@ != kept[b].0@ by {
                if b < front.len() {
                    assert(kept[a] == front[a] && kept[b] == front[b]);
                } else {
                    assert(kept[a] == front[a]);
                    let j = choose|j: int| 0 <= j < front_src.len() && front[a] == front_src[j];
                    assert(front_src[j] == s[j]);
                    assert(s[j].0@ != s[s.len() - 1].0@);
                    assert(kept[b] == s[s.len() - 1]);
                }
            }
        }
    }
}

/// One answer of an upload batch: the status and the raw body text.
#[derive(Debug)]
pub struct UploadOutcome {
    pub status: u16,
    pub body: String,
}

/// The statuses on which one upload is counted a success.
pub open spec fn upload_accepted(status: u16) -> bool {
    status == 200 || status == 201
}

/// The decoded bodies of the accepted answers, in batch order.  Rejected
/// answers contribute nothing; this spells out that one failed item never
/// fails the batch.
pub open spec fn upload_results(outs: Seq<UploadOutcome>) -> Seq<Seq<char>>
    decreases outs.len(),
{
    if outs.len() == 0 {
        Seq::<Seq<char>>::empty()
    } else if upload_accepted(outs.last().status) {
        upload_results(outs.drop_last()).push(json_parsed_string(outs.last().body@)->0)
    } else {
        upload_results(outs.drop_last())
    }
}

/// Reads a whole upload batch: accepted answers must carry a JSON string
/// body, whose decoded texts are returned in order; any other status is
/// tolerated and skipped.
pub fn collect_uploads(outcomes: &Vec<UploadOutcome>) -> (r: Result<Vec<String>, LinkError>)
    ensures
        r is Ok <==> (forall|i: int|
            0 <= i < outcomes@.len() ==> (!upload_accepted(outcomes@[i].status)
                || json_parsed_string(outcomes@[i].body@) is Some)),
        r matches Ok(v) ==> v.deep_view() == upload_results(outcomes@),
        r matches Err(e) ==> e == LinkError::JsonError,
{
    let mut out: Vec<String> = Vec::new();
    let n = outcomes.len();
    let mut i: usize = 0;
    while i < n
        invariant
            0 <= i <= n,
            n == outcomes@.len(),
            out.deep_view() == upload_results(outcomes@.take(i as int)),
            forall|j: int|
                0 <= j < i ==> (!upload_accepted(outcomes@[j].status) || json_parsed_string(
                    outcomes@[j].body@,
                ) is Some),
        decreases n - i,
    {
        proof {
            assert(outcomes@.take(i + 1).drop_last() =~= outcomes@.take(i as int));
            assert(outcomes@.take(i + 1).last() == outcomes@[i as int]);
        }
        let item = &outcomes[i];
        if item.status == 200 || item.status == 201 {
            match crate::encode::parse_json_string(item.body.as_str()) {
                Ok(s) => {
                    out.push(s);
                    proof {
                        assert(out.deep_view() =~~= upload_results(outcomes@.take(i + 1)));
                    }
                },
                Err(_) => {
                    return Err(LinkError::JsonError);
                },
            }
        } else {
            proof {
                assert(out.deep_view() =~~= upload_results(outcomes@.take(i + 1)));
            }
        }
        i += 1;
    }
    proof {
        assert(outcomes@.take(n as int) =~= outcomes@);
    }
    Ok(out)
}

/// The local file index: each file's stem mapped to its path, as one
/// directory listing supplies them.
#[derive(Debug)]
pub struct FileNames {
    pub names: NameMap,
}

impl FileNames {
    /// The well-formedness every operation preserves.
    pub open spec fn wf(self) -> bool {
        self.names.wf()
    }

    /// Wraps an already-gathered name map.
    pub fn new(names: NameMap) -> (r: Self)
        ensures
            r.names.entries@ == names.entries@,
    {
        FileNames { names }
    }

    /// Builds the index from raw stem-path pairs, later pairs overriding
    /// earlier ones of the same stem.
    pub fn from_entries(entries: &Vec<(String, String)>) -> (r: Self)
        ensures
            r.wf(),
            forall|k: Seq<char>| #![auto] r.names.spec_get(k) == lookup(entries@, k),
    {
        let mut names = NameMap::new();
        let n = entries.len();
        let mut i: usize = 0;
        while i < n
            invariant
                0 <= i <= n,
                n == entries@.len(),
                names.wf(),
                forall|k: Seq<char>| #![auto] names.spec_get(k) == lookup(entries@.take(i as int), k),
            decreases n - i,
        {
            proof {
                assert(entries@.take(i + 1).drop_last() =~= entries@.take(i as int));
                assert(entries@.take(i + 1).last() == entries@[i as int]);
            }
            let pair = &entries[i];
            names.insert(pair.0.clone(), pair.1.clone());
            i += 1;
        }
        proof {
            assert(entries@.take(n as int) =~= entries@);
        }
        FileNames { names }
    }

    /// The index entries, cloned.
    pub fn names(&self) -> (r: NameMap)
        ensures
            r.entries@ == self.names.entries@,
    {
        self.names.clone()
    }

    /// The index entries whose stem no stored link carries: exactly the
    /// local files not yet uploaded, their paths kept unchanged and their
    /// order preserved.
    pub fn not_in(&self, links: &DocumentLinks) -> (r: Self)
        requires
            self.wf(),
        ensures
            r.wf(),
            r.names.entries@ == kept_entries(self.names.entries@, links.links.entries@),
    {
        let mut out: Vec<(String, String)> = Vec::new();
        let n = self.names.entries_ref().len();
        let mut i: usize = 0;
        while i < n
            invariant
                0 <= i <= n,
                n == self.names.entries@.len(),
                out@ == kept_entries(self.names.entries@.take(i as int), links.links.entries@),
            decreases n - i,
        {
            proof {
                assert(self.names.entries@.take(i + 1).drop_last() =~= self.names.entries@.take(
                    i as int,
                ));
                assert(self.names.entries@.take(i + 1).last() == self.names.entries@[i as int]);
            }
            let pair = &self.names.entries_ref()[i];
            if !links.ref_links().contains_key(&pair.0) {
                out.push((pair.0.clone(), pair.1.clone()));
                proof {
                    assert(out@ =~= kept_entries(
                        self.names.entries@.take(i + 1),
                        links.links.entries@,
                    ));
                }
            }
            i += 1;
        }
        proof {
            assert(self.names.entries@.take(n as int) =~= self.names.entries@);
            lemma_kept_entries(self.names.entries@, links.links.entries@);
        }
        FileNames { names: NameMap { entries: out } }
    }

    /// The POST that uploads one named payload into a folder: the body
    /// carries the base64 payload, the target folder id, and the published
    /// status every batch upload requests.
    pub fn upload_request(
        name: &str,
        data: &[u8],
        info: &DocInfo,
        user: &AuthorizedUser,
        id: i32,
    ) -> (r: HttpRequest)
        requires
            data@.len() <= usize::MAX / 512,
        ensures
            r.method == Method::Post,
            r.url@ == info.url@,
            r.headers.deep_view() == upload_headers(info.headers, *user),
            r.body matches Some(b) && b@ == upload_body(name@, data@, id as int, true),
    {
        let body = crate::document::upload_body_string(name, data, id, true);
        HttpRequest {
            method: Method::Post,
            url: info.url_ref().clone(),
            headers: crate::document::item_headers(info, user),
            body: Some(body),
        }
    }

    /// Builds the index from the stored link set, name for name.
    pub fn from_links(links: &DocumentLinks) -> (r: Self)
        ensures
            r.names.entries@ == links.links.entries@,
    {
        FileNames { names: links.ref_links().clone() }
    }
}

} // verus!
