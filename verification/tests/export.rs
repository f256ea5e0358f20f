use linkbuilder::document::DocumentLinks;
use linkbuilder::error::LinkError;
use linkbuilder::export::{FilaLink, FilaLinks, WebLinks};
use linkbuilder::import::{Fila, Filas};
use linkbuilder::names::NameMap;

fn links(pairs: &[(&str, &str)]) -> DocumentLinks {
    let mut m = NameMap::new();
    for (k, v) in pairs {
        m.insert(k.to_string(), v.to_string());
    }
    DocumentLinks::new(m)
}

#[test]
fn web_links_render_as_comma_separated_rows() {
    let l = links(&[("a", "https://example.com/a"), ("b", "https://example.com/b")]);
    let rows = WebLinks::from_links(&l);
    assert_eq!(rows.records.len(), 2);
    assert_eq!(
        rows.to_csv(),
        "field,web_link\na,https://example.com/a\nb,https://example.com/b\n"
    );
}

#[test]
fn fields_with_separators_or_quotes_are_escaped() {
    let l = links(&[("a,b", "x"), ("q\"x", "y"), ("line\nbreak", "z")]);
    let text = WebLinks::from_links(&l).to_csv();
    assert_eq!(
        text,
        "field,web_link\n\"a,b\",x\n\"q\"\"x\",y\n\"line\nbreak\",z\n"
    );
}

#[test]
fn a_fila_link_resolves_through_the_link_set() {
    let fila = Fila::new(12, "2020-111", "G-1");
    let l = links(&[("2020-111", "https://example.com/recorded")]);
    let link = FilaLink::from_links(&fila, &l).expect("stored instrument must resolve");
    assert_eq!(link.object_id, 12);
    assert_eq!(link.instrument, "2020-111");
    assert_eq!(link.global_id, "G-1");
    assert_eq!(link.web_link, "https://example.com/recorded");
}

#[test]
fn a_missing_instrument_is_the_missing_link_error() {
    let fila = Fila::new(12, "2020-111", "G-1");
    let err = FilaLink::from_links(&fila, &links(&[])).unwrap_err();
    assert_eq!(err, LinkError::MissingLink);
    assert_eq!(err.message(), "No link stored under the requested name.");
}

#[test]
fn fila_links_skip_unresolved_rows() {
    let filas = Filas::from_records(vec![
        Fila::new(1, "A", "g1"),
        Fila::new(2, "B", "g2"),
        Fila::new(3, "C", "g3"),
    ]);
    let l = links(&[("A", "ua"), ("C", "uc")]);
    let kept = FilaLinks::from_links(&filas, &l).unwrap();
    assert_eq!(kept.records.len(), 2);
    assert_eq!(kept.records[0].object_id, 1);
    assert_eq!(kept.records[1].object_id, 3);
}

#[test]
fn fila_links_render_as_comma_separated_rows() {
    let filas = Filas::from_records(vec![Fila::new(-5, "A", "g,1")]);
    let l = links(&[("A", "https://example.com/a")]);
    let kept = FilaLinks::from_links(&filas, &l).unwrap();
    assert_eq!(
        kept.to_csv(),
        "object_id,instrument,global_id,web_link\n-5,A,\"g,1\",https://example.com/a\n"
    );
}

#[test]
fn fila_getters_return_the_stored_fields() {
    let fila = Fila::new(7, "2021-9", "G-9");
    assert_eq!(fila.object_id(), 7);
    assert_eq!(fila.instrument(), "2021-9");
    assert_eq!(fila.instrument_ref(), "2021-9");
    assert_eq!(fila.global_id(), "G-9");
    assert_eq!(fila.global_id_ref(), "G-9");
    let rows = Filas::from_records(vec![fila.clone()]);
    assert_eq!(rows.records().len(), 1);
    assert_eq!(rows.records_ref()[0].object_id, 7);
}
