use vstd::prelude::*;

use crate::service::ServiceError;

verus! {

/// What reading and decoding a cache file gave.
#[derive(Debug)]
pub enum DiskRead<T> {
    Found(T),
    Missing,
    Corrupt,
}

/// The step of a read-through load that follows reading the cache file.
#[derive(Debug)]
pub enum ReadStep<T> {
    /// The record is ready for the caller.
    Ready(T),
    /// Fetch the record from the remote service.
    Hydrate,
}

/// The step of a read-through load that follows a remote fetch.
#[derive(Debug)]
pub enum FetchStep<T> {
    /// Write this record to the cache file, overwriting what is there.
    Persist(T),
    /// The load fails with this error, with nothing written.
    Failed(ServiceError),
}

pub open spec fn after_read<T>(read: DiskRead<T>) -> ReadStep<T> {
    match read {
        DiskRead::Found(t) => ReadStep::Ready(t),
        _ => ReadStep::Hydrate,
    }
}

pub open spec fn after_fetch<T>(fetched: Result<T, ServiceError>) -> FetchStep<T> {
    match fetched {
        Ok(t) => FetchStep::Persist(t),
        Err(e) => FetchStep::Failed(e),
    }
}

pub open spec fn after_persist<T>(record: T, written: Result<(), ServiceError>) -> Result<T, ServiceError> {
    match written {
        Ok(()) => Ok(record),
        Err(e) => Err(e),
    }
}

/// A cache file that decodes is trusted as it is; a missing or corrupt one
/// calls for hydration.
pub fn on_read<T>(read: DiskRead<T>) -> (r: ReadStep<T>)
    ensures
        r == after_read(read),
{
    match read {
        DiskRead::Found(t) => ReadStep::Ready(t),
        _ => ReadStep::Hydrate,
    }
}

/// A fetched record is persisted; a failed fetch ends the load with its error.
pub fn on_fetch<T>(fetched: Result<T, ServiceError>) -> (r: FetchStep<T>)
    ensures
        r == after_fetch(fetched),
{
    match fetched {
        Ok(t) => FetchStep::Persist(t),
        Err(e) => FetchStep::Failed(e),
    }
}

/// Once written, the hydrated record is returned; a failed write ends the load
/// with its error.
pub fn on_persist<T>(record: T, written: Result<(), ServiceError>) -> (r: Result<T, ServiceError>)
    ensures
        r == after_persist(record, written),
{
    match written {
        Ok(()) => Ok(record),
        Err(e) => Err(e),
    }
}

/// The contents of a cache file.
pub enum DiskState<T> {
    Absent,
    Corrupt,
    Holds(T),
}

pub open spec fn read_of<T>(d: DiskState<T>) -> DiskRead<T> {
    match d {
        DiskState::Absent => DiskRead::Missing,
        DiskState::Corrupt => DiskRead::Corrupt,
        DiskState::Holds(t) => DiskRead::Found(t),
    }
}

/// One load run by the steps above against a cache file `disk`, where the
/// remote service would answer `remote` and a write would end with `written`:
/// the result, the file afterwards, and the number of remote calls made.
pub open spec fn load_run<T>(
    disk: DiskState<T>,
    remote: Result<T, ServiceError>,
    written: Result<(), ServiceError>,
) -> (Result<T, ServiceError>, DiskState<T>, nat) {
    match after_read(read_of(disk)) {
        ReadStep::Ready(t) => (Ok(t), disk, 0),
        ReadStep::Hydrate => match after_fetch(remote) {
            FetchStep::Persist(t) => (
                after_persist(t, written),
                if written is Ok {
                    DiskState::Holds(t)
                } else {
                    DiskState::Corrupt
                },
                1,
            ),
            FetchStep::Failed(e) => (Err(e), disk, 1),
        },
    }
}

/// With no cache file and a successful fetch, a load returns the fetched record
/// and leaves it on disk; a second load then returns the same record from disk,
/// whatever the remote service would answer, with no remote call.
pub proof fn law_hydrate_then_hit<T>(
    record: T,
    later_remote: Result<T, ServiceError>,
    later_written: Result<(), ServiceError>,
)
    ensures
        load_run(DiskState::Absent, Ok(record), Ok(())) == (
            Ok::<T, ServiceError>(record),
            DiskState::Holds(record),
            1nat,
        ),
        load_run(DiskState::Holds(record), later_remote, later_written) == (
            Ok::<T, ServiceError>(record),
            DiskState::Holds(record),
            0nat,
        ),
{
}

/// A corrupt cache file is replaced by the fetched record, which the load returns.
pub proof fn law_corrupt_file_replaced<T>(record: T)
    ensures
        load_run(DiskState::Corrupt, Ok(record), Ok(())) == (
            Ok::<T, ServiceError>(record),
            DiskState::Holds(record),
            1nat,
        ),
{
}

} // verus!
