//! Imported ledger rows: the fee-in-lieu agreement records that link files
//! are cross-referenced against.
use vstd::prelude::*;

verus! {

/// One imported agreement row: its object id, recording instrument number,
/// and global id.
#[derive(Debug)]
pub struct Fila {
    pub object_id: i64,
    pub instrument: String,
    pub global_id: String,
}

impl Fila {
    /// Assembles a row; the binary fills it from one parsed table record.
    pub fn new(object_id: i64, instrument: &str, global_id: &str) -> (r: Self)
        ensures
            r.object_id == object_id,
            r.instrument@ == instrument@,
            r.global_id@ == global_id@,
    {
        Fila {
            object_id,
            instrument: instrument.to_owned(),
            global_id: global_id.to_owned(),
        }
    }

    /// The numeric object id.
    pub fn object_id(&self) -> (r: i64)
        ensures
            r == self.object_id,
    {
        self.object_id
    }

    /// The recording instrument number.
    pub fn instrument_ref(&self) -> (r: &String)
        ensures
            r == &self.instrument,
    {
        &self.instrument
    }

    /// The recording instrument number, cloned.
    pub fn instrument(&self) -> (r: String)
        ensures
            r == self.instrument,
    {
        self.instrument.clone()
    }

    /// The global id, cloned.
    pub fn global_id(&self) -> (r: String)
        ensures
            r == self.global_id,
    {
        self.global_id.clone()
    }

    /// The global id.
    pub fn global_id_ref(&self) -> (r: &String)
        ensures
            r == &self.global_id,
    {
        &self.global_id
    }
}

impl Clone for Fila {
    fn clone(&self) -> (r: Self)
        ensures
            r == *self,
    {
        Fila {
            object_id: self.object_id,
            instrument: self.instrument.clone(),
            global_id: self.global_id.clone(),
        }
    }
}

/// A list of imported agreement rows in table order.
#[derive(Debug)]
pub struct Filas {
    pub records: Vec<Fila>,
}

impl Filas {
    /// Wraps already-parsed rows; the binary reads and parses the table file.
    pub fn from_records(records: Vec<Fila>) -> (r: Self)
        ensures
            r.records == records,
    {
        Filas { records }
    }

    /// The rows, cloned.
    pub fn records(&self) -> (r: Vec<Fila>)
        ensures
            r@ == self.records@,
    {
        let c = self.records.clone();
        proof {
            assert(c@ =~= self.records@);
        }
        c
    }

    /// The rows.
    pub fn records_ref(&self) -> (r: &Vec<Fila>)
        ensures
            r == &self.records,
    {
        &self.records
    }
}

} // verus!
