//! The one error taxonomy of every adapter, and the classification of a
//! call's outcome into it.

use vstd::prelude::*;
use crate::v1::{DataEntry, DataEntryError, ErrorRecord, GetResponse, SetResponse};
use crate::v2::IncompatibleValueTypeError;

verus! {

/// The status of a failed remote call, as the transport reports it.
#[verifier::external_type_specification]
#[verifier::external_body]
pub struct ExStatus(tonic::Status);

/// Why a call failed. Exactly one category is returned per failing call.
#[derive(Debug)]
pub enum ClientError {
    /// The connection to the endpoint could not be established.
    Connection(String),
    /// The remote call itself failed.
    Status(tonic::Status),
    /// The call returned, but with application-level error records, in the
    /// order of the response: its top-level record first, then those of its
    /// entries.
    Function(Vec<ErrorRecord>),
    /// A value could not be converted between interface generations.
    Conversion(IncompatibleValueTypeError),
    /// The operation has no equivalent in this interface generation.
    Unsupported(String),
}

/// The error records that the entries of a response carry, in order.
pub open spec fn entry_errors(errors: Seq<DataEntryError>) -> Seq<ErrorRecord>
    decreases errors.len(),
{
    if errors.len() == 0 {
        Seq::empty()
    } else {
        let rest = entry_errors(errors.drop_last());
        match errors.last().error {
            Some(e) => rest.push(e),
            None => rest,
        }
    }
}

/// All error records of a response: the top-level one first.
pub open spec fn collected(error: Option<ErrorRecord>, errors: Seq<DataEntryError>) -> Seq<ErrorRecord> {
    match error {
        Some(e) => seq![e] + entry_errors(errors),
        None => entry_errors(errors),
    }
}

/// Gathers the error records of a response into one list, the top-level
/// record first, then those of the entries in order.
pub fn collect_errors(error: Option<ErrorRecord>, errors: Vec<DataEntryError>) -> (r: Vec<ErrorRecord>)
    ensures
        r@ == collected(error, errors@),
{
    let mut out: Vec<ErrorRecord> = Vec::new();
    match error {
        Some(e) => out.push(e),
        None => {},
    }
    let ghost head = out@;
    let ghost all = errors@;
    let mut rest = errors;
    let mut k: usize = 0;
    let total: usize = rest.len();
    while rest.len() > 0
        invariant
            k + rest@.len() == all.len(),
            all.len() <= usize::MAX,
            rest@ == all.skip(k as int),
            out@ == head + entry_errors(all.take(k as int)),
        decreases rest.len(),
    {
        let item = rest.remove(0);
        proof {
            assert(item == all[k as int]);
            assert(all.take(k + 1).drop_last() =~= all.take(k as int));
        }
        match item.error {
            Some(e) => out.push(e),
            None => {},
        }
        k += 1;
        proof {
            assert(rest@ =~= all.skip(k as int));
            assert(out@ =~= head + entry_errors(all.take(k as int)));
        }
    }
    assert(all.take(k as int) =~= all);
    assert(out@ =~= collected(error, all));
    out
}

/// The outcome of a write call: the transport's failure, the response's
/// error records, or success when the response carries none.
pub fn classify_set(outcome: Result<SetResponse, tonic::Status>) -> (r: Result<(), ClientError>)
    ensures
        match outcome {
            Err(s) => r == Err::<(), ClientError>(ClientError::Status(s)),
            Ok(resp) => if collected(resp.error, resp.errors@).len() == 0 {
                r is Ok
            } else {
                r matches Err(ClientError::Function(records)) && records@ == collected(resp.error, resp.errors@)
            },
        },
{
    match outcome {
        Err(s) => Err(ClientError::Status(s)),
        Ok(resp) => {
            let records = collect_errors(resp.error, resp.errors);
            if records.len() == 0 {
                Ok(())
            } else {
                Err(ClientError::Function(records))
            }
        },
    }
}

/// The outcome of a read call: the transport's failure, the response's
/// error records, or its entries as returned when it carries no error.
pub fn classify_get(outcome: Result<GetResponse, tonic::Status>) -> (r: Result<Vec<DataEntry>, ClientError>)
    ensures
        match outcome {
            Err(s) => r == Err::<Vec<DataEntry>, ClientError>(ClientError::Status(s)),
            Ok(resp) => if collected(resp.error, resp.errors@).len() == 0 {
                r == Ok::<Vec<DataEntry>, ClientError>(resp.entries)
            } else {
                r matches Err(ClientError::Function(records)) && records@ == collected(resp.error, resp.errors@)
            },
        },
{
    match outcome {
        Err(s) => Err(ClientError::Status(s)),
        Ok(resp) => {
            let records = collect_errors(resp.error, resp.errors);
            if records.len() == 0 {
                Ok(resp.entries)
            } else {
                Err(ClientError::Function(records))
            }
        },
    }
}

/// The outcome of a call whose response carries no error records: its
/// answer, or the transport's failure.
pub fn classify_call<T>(outcome: Result<T, tonic::Status>) -> (r: Result<T, ClientError>)
    ensures
        match outcome {
            Ok(v) => r == Ok::<T, ClientError>(v),
            Err(s) => r == Err::<T, ClientError>(ClientError::Status(s)),
        },
{
    match outcome {
        Ok(v) => Ok(v),
        Err(s) => Err(ClientError::Status(s)),
    }
}

/// The error that an operation without an equivalent in an interface
/// generation returns.
pub fn unsupported(what: &str) -> (r: ClientError)
    ensures
        r matches ClientError::Unsupported(m) && m@ == what@,
{
    ClientError::Unsupported(String::from_str(what))
}

} // verus!
