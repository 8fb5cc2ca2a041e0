use vstd::prelude::*;

use crate::error::{ErrorKind, HypervError};
use crate::hyperv::Hyperv;

verus! {

/// A virtual machine's identifier: the 128 bits of its UUID, most
/// significant byte first.
pub type VmId = u128;

/// A virtual machine as the host lists it.
#[derive(Debug)]
pub struct Vm {
    pub id: VmId,
    pub name: String,
}

/// The value of a UUID's text, or `None` when the text is not a UUID.
pub uninterp spec fn uuid_value_of(s: Seq<char>) -> Option<u128>;

/// Relies on `uuid::Uuid::parse_str` and `Uuid::as_u128`: the outcome depends
/// on the text alone.
#[verifier::external_body]
fn parse_uuid(s: &str) -> (r: Option<u128>)
    ensures
        r == uuid_value_of(s@),
{
    match uuid::Uuid::parse_str(s) {
        Ok(u) => Some(u.as_u128()),
        Err(_) => None,
    }
}

/// One listed record before and after its identifier is read.
pub open spec fn record_vm(id: Option<u128>, name: Seq<char>) -> Option<(u128, Seq<char>)> {
    match id {
        Some(u) => Some((u, name)),
        None => None,
    }
}

impl Vm {
    /// Builds a machine from its parsed identifier; a missing one means the
    /// identifier text was not a UUID.
    pub fn from_parsed(id: Option<u128>, name: String) -> (r: Result<Vm, HypervError>)
        ensures
            match id {
                Some(u) => r is Ok && r->Ok_0.id == u && r->Ok_0.name == name,
                None => r is Err && r->Err_0.kind == ErrorKind::DecodeFailed,
            },
    {
        match id {
            Some(u) => Ok(Vm { id: u, name }),
            None => Err(
                HypervError::new(
                    ErrorKind::DecodeFailed,
                    "Failed to parse powershell output: Id is not a UUID",
                ),
            ),
        }
    }

    /// Builds a machine from the text of its two fields.
    pub fn from_fields(id: &str, name: String) -> (r: Result<Vm, HypervError>)
        ensures
            match uuid_value_of(id@) {
                Some(u) => r is Ok && r->Ok_0.id == u && r->Ok_0.name == name,
                None => r is Err && r->Err_0.kind == ErrorKind::DecodeFailed,
            },
    {
        Self::from_parsed(parse_uuid(id), name)
    }
}

/// Every record's identifier reads as a UUID.
pub open spec fn all_ids_parse(records: Seq<(String, String)>) -> bool {
    forall|i: int| 0 <= i < records.len() ==> (#[trigger] uuid_value_of(records[i].0@)) is Some
}

impl Hyperv {
    /// Turns the decoded list of `(Id, Name)` records into machines, in
    /// order. One identifier that is not a UUID fails the whole list.
    pub fn vms_from_records(records: &Vec<(String, String)>) -> (r: Result<Vec<Vm>, HypervError>)
        ensures
            all_ids_parse(records@) <==> r is Ok,
            r is Ok ==> r->Ok_0@.len() == records@.len() && forall|i: int|
                0 <= i < records@.len() ==> Some(r->Ok_0@[i].id) == uuid_value_of(
                    #[trigger] records@[i].0@,
                ) && r->Ok_0@[i].name@ == records@[i].1@,
            r is Err ==> r->Err_0.kind == ErrorKind::DecodeFailed,
    {
        let mut out: Vec<Vm> = Vec::new();
        let mut i: usize = 0;
        while i < records.len()
            invariant
                i <= records@.len(),
                out@.len() == i,
                forall|k: int|
                    0 <= k < i ==> Some(out@[k].id) == uuid_value_of(#[trigger] records@[k].0@)
                        && out@[k].name@ == records@[k].1@,
            decreases records@.len() - i,
        {
            let record = &records[i];
            match Vm::from_fields(record.0.as_str(), record.1.clone()) {
                Ok(vm) => out.push(vm),
                Err(e) => {
                    assert(!all_ids_parse(records@)) by {
                        assert(uuid_value_of(records@[i as int].0@) is None);
                    }
                    return Err(e);
                },
            }
            i = i + 1;
        }
        Ok(out)
    }
}

} // verus!
