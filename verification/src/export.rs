//! Rows written out for the mapping layers: plain web links and agreement
//! links, each with its comma-separated text rendering.
use crate::document::DocumentLinks;
use crate::error::LinkError;
use crate::import::{Fila, Filas};
use crate::names::lookup;
use crate::text::{append_csv_field, append_i64, csv_field, int_str, push_char};
use vstd::prelude::*;

verus! {

/// One link row: a field name and the address stored for it.
#[derive(Debug)]
pub struct WebLink {
    pub field: String,
    pub web_link: String,
}

impl WebLink {
    /// A row from a name and its address.
    pub fn new(field: &str, link: &str) -> (r: Self)
        ensures
            r.field@ == field@,
            r.web_link@ == link@,
    {
        WebLink { field: field.to_owned(), web_link: link.to_owned() }
    }
}

impl Clone for WebLink {
    fn clone(&self) -> (r: Self)
        ensures
            r == *self,
    {
        WebLink { field: self.field.clone(), web_link: self.web_link.clone() }
    }
}

/// The comma-separated rows of a list of link rows, one line per row.
pub open spec fn weblink_rows(s: Seq<WebLink>) -> Seq<char>
    decreases s.len(),
{
    if s.len() == 0 {
        Seq::<char>::empty()
    } else {
        weblink_rows(s.drop_last()) + csv_field(s.last().field@) + ","@ + csv_field(
            s.last().web_link@,
        ) + "\n"@
    }
}

/// The link rows gathered from one link set, in stored order.
#[derive(Debug)]
pub struct WebLinks {
    pub records: Vec<WebLink>,
}

impl WebLinks {
    /// One row per stored link, in stored order.
    pub fn from_links(links: &DocumentLinks) -> (r: Self)
        ensures
            r.records@.len() == links.links.entries@.len(),
            forall|i: int|
                0 <= i < r.records@.len() ==> r.records@[i].field@ == links.links.entries@[i].0@
                    && r.records@[i].web_link@ == links.links.entries@[i].1@,
    {
        let entries = links.ref_links().entries_ref();
        let n = entries.len();
        let mut records: Vec<WebLink> = Vec::new();
        let mut i: usize = 0;
        while i < n
            invariant
                0 <= i <= n,
                n == entries@.len(),
                records@.len() == i,
                forall|j: int|
                    0 <= j < i ==> records@[j].field@ == entries@[j].0@ && records@[j].web_link@
                        == entries@[j].1@,
            decreases n - i,
        {
            let pair = &entries[i];
            records.push(WebLink::new(pair.0.as_str(), pair.1.as_str()));
            i += 1;
        }
        WebLinks { records }
    }

    /// The comma-separated text of the rows: the fixed heading line, then
    /// one line per row with both fields escaped as the format requires.
    /// The binary writes this text to the output file.
    pub fn to_csv(&self) -> (r: String)
        ensures
            r@ == "field,web_link\n"@ + weblink_rows(self.records@),
    {
        let mut out: String = "field,web_link\n".to_owned();
        let n = self.records.len();
        let mut i: usize = 0;
        while i < n
            invariant
                0 <= i <= n,
                n == self.records@.len(),
                out@ == "field,web_link\n"@ + weblink_rows(self.records@.take(i as int)),
            decreases n - i,
        {
            proof {
                reveal_strlit(",");
                reveal_strlit("\n");
                assert(self.records@.take(i + 1).drop_last() =~= self.records@.take(i as int));
                assert(self.records@.take(i + 1).last() == self.records@[i as int]);
            }
            let row = &self.records[i];
            append_csv_field(&mut out, row.field.as_str());
            push_char(&mut out, ',');
            append_csv_field(&mut out, row.web_link.as_str());
            push_char(&mut out, '\n');
            proof {
                assert(out@ =~= "field,web_link\n"@ + weblink_rows(self.records@.take(i + 1)));
            }
            i += 1;
        }
        proof {
            assert(self.records@.take(n as int) =~= self.records@);
        }
        out
    }
}

/// One agreement link row: the imported row's ids joined with the stored
/// address of its instrument.
#[derive(Debug)]
pub struct FilaLink {
    pub object_id: i64,
    pub instrument: String,
    pub global_id: String,
    pub web_link: String,
}

impl FilaLink {
    /// A row from an imported record and an address.
    pub fn new(fila: &Fila, link: &str) -> (r: Self)
        ensures
            r.object_id == fila.object_id,
            r.instrument == fila.instrument,
            r.global_id == fila.global_id,
            r.web_link@ == link@,
    {
        FilaLink {
            object_id: fila.object_id,
            instrument: fila.instrument.clone(),
            global_id: fila.global_id.clone(),
            web_link: link.to_owned(),
        }
    }

    /// The row for one imported record: its instrument's stored address when
    /// the link set holds one, and the missing-link failure when it does not.
    pub fn from_links(fila: &Fila, links: &DocumentLinks) -> (r: Result<FilaLink, LinkError>)
        requires
            links.wf(),
        ensures
            r is Ok <==> lookup(links.links.entries@, fila.instrument@) is Some,
            r matches Ok(l) ==> l.object_id == fila.object_id && l.instrument == fila.instrument
                && l.global_id == fila.global_id && Some(l.web_link@) == lookup(
                links.links.entries@,
                fila.instrument@,
            ),
            r matches Err(e) ==> e == LinkError::MissingLink,
    {
        match links.ref_links().get(&fila.instrument) {
            Some(url) => Ok(FilaLink::new(fila, url.as_str())),
            None => Err(LinkError::MissingLink),
        }
    }
}

impl Clone for FilaLink {
    fn clone(&self) -> (r: Self)
        ensures
            r == *self,
    {
        FilaLink {
            object_id: self.object_id,
            instrument: self.instrument.clone(),
            global_id: self.global_id.clone(),
            web_link: self.web_link.clone(),
        }
    }
}

/// The imported rows whose instrument the link set resolves, in imported
/// order; the others are tolerated and skipped.
pub open spec fn kept_filas(filas: Seq<Fila>, links: Seq<(String, String)>) -> Seq<Fila>
    decreases filas.len(),
{
    if filas.len() == 0 {
        Seq::<Fila>::empty()
    } else if lookup(links, filas.last().instrument@) is Some {
        kept_filas(filas.drop_last(), links).push(filas.last())
    } else {
        kept_filas(filas.drop_last(), links)
    }
}

/// The comma-separated rows of a list of agreement link rows.
pub open spec fn fila_rows(s: Seq<FilaLink>) -> Seq<char>
    decreases s.len(),
{
    if s.len() == 0 {
        Seq::<char>::empty()
    } else {
        fila_rows(s.drop_last()) + int_str(s.last().object_id as int) + ","@ + csv_field(
            s.last().instrument@,
        ) + ","@ + csv_field(s.last().global_id@) + ","@ + csv_field(s.last().web_link@) + "\n"@
    }
}

/// The agreement link rows of one import, resolved against a link set.
#[derive(Debug)]
pub struct FilaLinks {
    pub records: Vec<FilaLink>,
}

impl FilaLinks {
    /// One row per imported record whose instrument resolves; records
    /// without a stored link are skipped, never a failure of the whole list.
    pub fn from_links(filas: &Filas, links: &DocumentLinks) -> (r: Result<FilaLinks, LinkError>)
        requires
            links.wf(),
        ensures
            r is Ok,
            r matches Ok(fl) ==> {
                let kept = kept_filas(filas.records@, links.links.entries@);
                &&& fl.records@.len() == kept.len()
                &&& (forall|i: int|
                    0 <= i < kept.len() ==> fl.records@[i].object_id == kept[i].object_id
                        && fl.records@[i].instrument == kept[i].instrument
                        && fl.records@[i].global_id == kept[i].global_id && Some(
                        fl.records@[i].web_link@,
                    ) == lookup(links.links.entries@, kept[i].instrument@))
            },
    {
        let mut records: Vec<FilaLink> = Vec::new();
        let n = filas.records_ref().len();
        let mut i: usize = 0;
        while i < n
            invariant
                0 <= i <= n,
                n == filas.records@.len(),
                links.wf(),
                records@.len() == kept_filas(filas.records@.take(i as int), links.links.entries@).len(),
                forall|j: int|
                    0 <= j < records@.len() ==> {
                        let kept = kept_filas(filas.records@.take(i as int), links.links.entries@);
                        (#[trigger] records@[j]).object_id == kept[j].object_id
                            && records@[j].instrument == kept[j].instrument
                            && records@[j].global_id == kept[j].global_id && Some(
                            records@[j].web_link@,
                        ) == lookup(links.links.entries@, kept[j].instrument@)
                    },
            decreases n - i,
        {
            proof {
                assert(filas.records@.take(i + 1).drop_last() =~= filas.records@.take(i as int));
                assert(filas.records@.take(i + 1).last() == filas.records@[i as int]);
            }
            let fila = &filas.records_ref()[i];
            match FilaLink::from_links(fila, links) {
                Ok(link) => {
                    records.push(link);
                },
                Err(_) => {},
            }
            i += 1;
        }
        proof {
            assert(filas.records@.take(n as int) =~= filas.records@);
        }
        Ok(FilaLinks { records })
    }

    /// The comma-separated text of the rows: the fixed heading line, then
    /// one line per row.  The binary writes this text to the output file.
    pub fn to_csv(&self) -> (r: String)
        ensures
            r@ == "object_id,instrument,global_id,web_link\n"@ + fila_rows(self.records@),
    {
        let mut out: String = "object_id,instrument,global_id,web_link\n".to_owned();
        let n = self.records.len();
        let mut i: usize = 0;
        while i < n
            invariant
                0 <= i <= n,
                n == self.records@.len(),
                out@ == "object_id,instrument,global_id,web_link\n"@ + fila_rows(
                    self.records@.take(i as int),
                ),
            decreases n - i,
        {
            proof {
                reveal_strlit(",");
                reveal_strlit("\n");
                assert(self.records@.take(i + 1).drop_last() =~= self.records@.take(i as int));
                assert(self.records@.take(i + 1).last() == self.records@[i as int]);
            }
            let row = &self.records[i];
            append_i64(&mut out, row.object_id);
            push_char(&mut out, ',');
            append_csv_field(&mut out, row.instrument.as_str());
            push_char(&mut out, ',');
            append_csv_field(&mut out, row.global_id.as_str());
            push_char(&mut out, ',');
            append_csv_field(&mut out, row.web_link.as_str());
            push_char(&mut out, '\n');
            proof {
                assert(out@ =~= "object_id,instrument,global_id,web_link\n"@ + fila_rows(
                    self.records@.take(i + 1),
                ));
            }
            i += 1;
        }
        proof {
            assert(self.records@.take(n as int) =~= self.records@);
        }
        out
    }
}

} // verus!
