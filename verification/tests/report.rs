use linkbuilder::error::LinkError;
use linkbuilder::report::{FolderSize, FolderSizes, ReportItem, ReportItems};

#[test]
fn percentages_are_shares_of_the_largest_sample() {
    let sizes = FolderSizes::from_records(vec![FolderSize::new("X", 50), FolderSize::new("Y", 100)]);
    let report = ReportItems::from_sizes(&sizes).expect("non-empty samples must report");
    assert_eq!(report.records.len(), 2);
    let x = &report.records[0];
    let y = &report.records[1];
    assert_eq!(x.folder, "X");
    assert_eq!(x.percent_num as f64 / x.percent_den as f64, 0.5);
    assert_eq!(y.folder, "Y");
    assert_eq!(y.percent_num as f64 / y.percent_den as f64, 1.0);
}

#[test]
fn an_empty_sample_set_is_refused() {
    let sizes = FolderSizes::from_records(Vec::new());
    let err = ReportItems::from_sizes(&sizes).unwrap_err();
    assert_eq!(err, LinkError::EmptyReport);
    assert_eq!(err.message(), "Cannot report on an empty set of samples.");
}

#[test]
fn sizes_render_in_the_largest_fitting_unit() {
    let sizes = FolderSizes::from_records(vec![
        FolderSize::new("small", 500),
        FolderSize::new("mid", 10500),
        FolderSize::new("large", 1_500_000),
    ]);
    let report = ReportItems::from_sizes(&sizes).unwrap();
    assert_eq!(report.records[0].size, "500 B");
    assert_eq!(report.records[1].size, "10.50 KB");
    assert_eq!(report.records[2].size, "1.50 MB");
}

#[test]
fn report_item_keeps_the_exact_ratio() {
    let item = ReportItem::new("Plats", 250, 1000).unwrap();
    assert_eq!(item.folder, "Plats");
    assert_eq!(item.percent_num, 250);
    assert_eq!(item.percent_den, 1000);
}

#[test]
fn folder_sizes_sum_their_samples() {
    let sizes = FolderSizes::from_records(vec![
        FolderSize::new("a", 10),
        FolderSize::new("b", 0),
        FolderSize::new("c", 32),
    ]);
    assert_eq!(sizes.size(), 42u128);
    assert_eq!(sizes.records_ref().len(), 3);
    assert_eq!(sizes.records()[2].size(), 32);
    assert_eq!(FolderSizes::from_records(Vec::new()).size(), 0);
}

#[test]
fn ties_report_a_full_share() {
    let sizes = FolderSizes::from_records(vec![FolderSize::new("a", 7), FolderSize::new("b", 7)]);
    let report = ReportItems::from_sizes(&sizes).unwrap();
    assert_eq!(report.records[0].percent_num, 7);
    assert_eq!(report.records[0].percent_den, 7);
}
