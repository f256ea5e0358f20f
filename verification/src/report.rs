//! The storage report: named folder sizes, their total, and per-folder rows
//! with a share of the largest sample and a human-readable size.  All sizes
//! are byte counts.
use crate::encode::{human_size, human_size_of};
use crate::error::LinkError;
use vstd::prelude::*;

verus! {

/// The total size of one named folder, in bytes.
#[derive(Debug)]
pub struct FolderSize {
    pub folder: String,
    pub size: u64,
}

impl FolderSize {
    /// A sample from a folder name and its size in bytes.
    pub fn new(folder: &str, size: u64) -> (r: Self)
        ensures
            r.folder@ == folder@,
            r.size == size,
    {
        FolderSize { folder: folder.to_owned(), size }
    }

    /// The sampled size in bytes.
    pub fn size(&self) -> (r: u64)
        ensures
            r == self.size,
    {
        self.size
    }
}

impl Clone for FolderSize {
    fn clone(&self) -> (r: Self)
        ensures
            r == *self,
    {
        FolderSize { folder: self.folder.clone(), size: self.size }
    }
}

/// The sum in bytes over a list of samples.
pub open spec fn samples_sum(s: Seq<FolderSize>) -> int
    decreases s.len(),
{
    if s.len() == 0 {
        0
    } else {
        samples_sum(s.drop_last()) + s.last().size
    }
}

/// The largest sample in bytes; zero over an empty list.
pub open spec fn samples_max(s: Seq<FolderSize>) -> int
    decreases s.len(),
{
    if s.len() == 0 {
        0
    } else if s.last().size >= samples_max(s.drop_last()) {
        s.last().size as int
    } else {
        samples_max(s.drop_last())
    }
}

/// A list of size samples in collection order.
#[derive(Debug)]
pub struct FolderSizes {
    pub records: Vec<FolderSize>,
}

impl FolderSizes {
    /// Wraps already-collected samples.
    pub fn from_records(records: Vec<FolderSize>) -> (r: Self)
        ensures
            r.records == records,
    {
        FolderSizes { records }
    }

    /// The samples, cloned.
    pub fn records(&self) -> (r: Vec<FolderSize>)
        ensures
            r@ == self.records@,
    {
        let c = self.records.clone();
        proof {
            assert(c@ =~= self.records@);
        }
        c
    }

    /// The samples.
    pub fn records_ref(&self) -> (r: &Vec<FolderSize>)
        ensures
            r == &self.records,
    {
        &self.records
    }

    /// The sum in bytes over all samples.
    pub fn size(&self) -> (r: u128)
        ensures
            r == samples_sum(self.records@),
    {
        let n = self.records.len();
        let mut total: u128 = 0;
        let mut i: usize = 0;
        while i < n
            invariant
                0 <= i <= n,
                n == self.records@.len(),
                total == samples_sum(self.records@.take(i as int)),
                total <= i * u64::MAX,
            decreases n - i,
        {
            proof {
                assert(self.records@.take(i + 1).drop_last() =~= self.records@.take(i as int));
                assert(self.records@.take(i + 1).last() == self.records@[i as int]);
                assert((i + 1) * u64::MAX == i * u64::MAX + u64::MAX) by (nonlinear_arith);
                assert(i * u64::MAX <= n * u64::MAX) by (nonlinear_arith)
                    requires
                        0 <= i <= n,
                ;
            }
            total = total + self.records[i].size as u128;
            i += 1;
        }
        proof {
            assert(self.records@.take(n as int) =~= self.records@);
        }
        total
    }
}

/// One report row: the folder name, its size rendered human-readably, and
/// its share of the largest sample as the exact ratio of two byte counts.
#[derive(Debug)]
pub struct ReportItem {
    pub folder: String,
    pub size: String,
    pub percent_num: u64,
    pub percent_den: u64,
}

impl ReportItem {
    /// The row for one sample against the largest sample: the rendered size
    /// and the ratio `size / total_size` kept as numerator and denominator.
    pub fn new(folder: &str, size: u64, total_size: u64) -> (r: Result<ReportItem, LinkError>)
        ensures
            r matches Ok(item) && item.folder@ == folder@ && item.size@ == human_size_of(size)
                && item.percent_num == size && item.percent_den == total_size,
    {
        Ok(
            ReportItem {
                folder: folder.to_owned(),
                size: human_size(size),
                percent_num: size,
                percent_den: total_size,
            },
        )
    }
}

impl Clone for ReportItem {
    fn clone(&self) -> (r: Self)
        ensures
            r == *self,
    {
        ReportItem {
            folder: self.folder.clone(),
            size: self.size.clone(),
            percent_num: self.percent_num,
            percent_den: self.percent_den,
        }
    }
}

/// The report rows of one sample list.
#[derive(Debug)]
pub struct ReportItems {
    pub records: Vec<ReportItem>,
}

impl ReportItems {
    /// One row per sample, each measured against the largest sample; an
    /// empty sample list is refused, as the largest of nothing is undefined.
    pub fn from_sizes(sizes: &FolderSizes) -> (r: Result<ReportItems, LinkError>)
        ensures
            r is Ok <==> sizes.records@.len() > 0,
            r matches Ok(items) ==> items.records@.len() == sizes.records@.len() && (forall|i: int|
                0 <= i < sizes.records@.len() ==> {
                    let item = #[trigger] items.records@[i];
                    item.folder@ == sizes.records@[i].folder@ && item.size@ == human_size_of(
                        sizes.records@[i].size,
                    ) && item.percent_num == sizes.records@[i].size && item.percent_den
                        == samples_max(sizes.records@)
                }),
            r matches Err(e) ==> e == LinkError::EmptyReport,
    {
        let n = sizes.records_ref().len();
        if n == 0 {
            return Err(LinkError::EmptyReport);
        }
        let mut max: u64 = 0;
        let mut i: usize = 0;
        while i < n
            invariant
                0 <= i <= n,
                n == sizes.records@.len(),
                max == samples_max(sizes.records@.take(i as int)),
            decreases n - i,
        {
            proof {
                assert(sizes.records@.take(i + 1).drop_last() =~= sizes.records@.take(i as int));
                assert(sizes.records@.take(i + 1).last() == sizes.records@[i as int]);
            }
            let size = sizes.records_ref()[i].size;
            if size >= max {
                max = size;
            }
            i += 1;
        }
        proof {
            assert(sizes.records@.take(n as int) =~= sizes.records@);
        }
        let mut records: Vec<ReportItem> = Vec::new();
        let mut j: usize = 0;
        while j < n
            invariant
                0 <= j <= n,
                n == sizes.records@.len(),
                max == samples_max(sizes.records@),
                records@.len() == j,
                forall|k: int|
                    0 <= k < j ==> {
                        let item = #[trigger] records@[k];
                        item.folder@ == sizes.records@[k].folder@ && item.size@ == human_size_of(
                            sizes.records@[k].size,
                        ) && item.percent_num == sizes.records@[k].size && item.percent_den
                            == samples_max(sizes.records@)
                    },
            decreases n - j,
        {
            let sample = &sizes.records_ref()[j];
            match ReportItem::new(sample.folder.as_str(), sample.size, max) {
                Ok(item) => records.push(item),
                Err(_) => {},
            }
            j += 1;
        }
        Ok(ReportItems { records })
    }
}

} // verus!
