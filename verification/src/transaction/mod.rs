//! Transactions: a request scheduled by a load generator, and its outcome.
use vstd::prelude::*;

mod batch;
mod id;
mod result;

pub use batch::Batch;
pub use id::{LoadGeneratorId, SpecId};
pub use result::{
    DroppedCode, DroppedMetadata, FailedCode, ResultMetadata, TimeoutCode, TransactionResult,
};

use crate::load::{RelativeLoadTestTime, ResponseTime, ServiceTime, StartTime};
use crate::virtual_user::VirtualUserId;

verus! {

/// What is known of a transaction when it is scheduled.
#[derive(Debug)]
pub struct Metadata {
    pub loadgenerator_id: LoadGeneratorId,
    pub start_time: StartTime,
    pub target_time: RelativeLoadTestTime,
}

/// A transaction scheduled by a load generator and not yet completed.
#[derive(Debug)]
pub struct Transaction {
    metadata: Metadata,
}

impl Transaction {
    pub closed spec fn spec_loadgenerator_id(self) -> LoadGeneratorId {
        self.metadata.loadgenerator_id
    }

    pub closed spec fn spec_start_time(self) -> StartTime {
        self.metadata.start_time
    }

    pub closed spec fn spec_target_time(self) -> RelativeLoadTestTime {
        self.metadata.target_time
    }

    /// The metadata of a completed, non-dropped transaction that ran spec
    /// `spec_id` on virtual user `virtual_user_id`.
    pub open spec fn result_metadata(self, virtual_user_id: VirtualUserId, spec_id: SpecId) -> ResultMetadata {
        ResultMetadata {
            spec_id,
            virtual_user_id,
            loadgenerator_id: self.spec_loadgenerator_id(),
            start_time: self.spec_start_time().spec_offset(),
            target_time: self.spec_target_time(),
        }
    }

    /// The metadata of a dropped transaction on virtual user `virtual_user_id`.
    pub open spec fn dropped_metadata(self, virtual_user_id: VirtualUserId) -> DroppedMetadata {
        DroppedMetadata {
            virtual_user_id,
            loadgenerator_id: self.spec_loadgenerator_id(),
            start_time: self.spec_start_time().spec_offset(),
            target_time: self.spec_target_time(),
        }
    }

    pub fn new(
        loadgenerator_id: LoadGeneratorId,
        start_time: StartTime,
        target_time: RelativeLoadTestTime,
    ) -> (t: Self)
        ensures
            t.spec_loadgenerator_id() == loadgenerator_id,
            t.spec_start_time() == start_time,
            t.spec_target_time() == target_time,
    {
        Transaction { metadata: Metadata { loadgenerator_id, start_time, target_time } }
    }

    pub fn start_time(&self) -> (s: StartTime)
        ensures
            s == self.spec_start_time(),
    {
        self.metadata.start_time
    }

    /// The dropped outcome, given the transaction's response time.
    pub fn into_dropped_with(
        self,
        virtual_user_id: VirtualUserId,
        code: DroppedCode,
        response_time: ResponseTime,
    ) -> (r: TransactionResult)
        ensures
            r == (TransactionResult::Dropped {
                metadata: self.dropped_metadata(virtual_user_id),
                response_time,
                code,
            }),
    {
        let start_time = self.metadata.start_time.relative_to_start();
        TransactionResult::Dropped {
            metadata: DroppedMetadata {
                virtual_user_id,
                loadgenerator_id: self.metadata.loadgenerator_id,
                start_time,
                target_time: self.metadata.target_time,
            },
            response_time,
            code,
        }
    }

    /// The successful outcome, given the transaction's response time.
    pub fn into_success_with(
        self,
        virtual_user_id: VirtualUserId,
        spec_id: SpecId,
        service_time: ServiceTime,
        response_time: ResponseTime,
    ) -> (r: TransactionResult)
        ensures
            r == (TransactionResult::Success {
                metadata: self.result_metadata(virtual_user_id, spec_id),
                response_time,
                service_time,
            }),
    {
        let start_time = self.metadata.start_time.relative_to_start();
        TransactionResult::Success {
            metadata: ResultMetadata {
                spec_id,
                virtual_user_id,
                loadgenerator_id: self.metadata.loadgenerator_id,
                start_time,
                target_time: self.metadata.target_time,
            },
            response_time,
            service_time,
        }
    }

    /// The failed outcome, given the transaction's response time.
    pub fn into_failed_with(
        self,
        virtual_user_id: VirtualUserId,
        spec_id: SpecId,
        service_time: ServiceTime,
        code: FailedCode,
        response_time: ResponseTime,
    ) -> (r: TransactionResult)
        ensures
            r == (TransactionResult::Failed {
                metadata: self.result_metadata(virtual_user_id, spec_id),
                response_time,
                service_time,
                code,
            }),
    {
        let start_time = self.metadata.start_time.relative_to_start();
        TransactionResult::Failed {
            metadata: ResultMetadata {
                spec_id,
                virtual_user_id,
                loadgenerator_id: self.metadata.loadgenerator_id,
                start_time,
                target_time: self.metadata.target_time,
            },
            response_time,
            service_time,
            code,
        }
    }

    /// The timed-out outcome, given the transaction's response time.
    pub fn into_timeout_with(
        self,
        virtual_user_id: VirtualUserId,
        spec_id: SpecId,
        service_time: ServiceTime,
        code: TimeoutCode,
        response_time: ResponseTime,
    ) -> (r: TransactionResult)
        ensures
            r == (TransactionResult::Timeout {
                metadata: self.result_metadata(virtual_user_id, spec_id),
                response_time,
                service_time,
                code,
            }),
    {
        let start_time = self.metadata.start_time.relative_to_start();
        TransactionResult::Timeout {
            metadata: ResultMetadata {
                spec_id,
                virtual_user_id,
                loadgenerator_id: self.metadata.loadgenerator_id,
                start_time,
                target_time: self.metadata.target_time,
            },
            response_time,
            service_time,
            code,
        }
    }

    /// Drops the transaction; its response time is read from the clock.
    pub fn into_dropped(self, virtual_user_id: VirtualUserId, code: DroppedCode) -> (r: TransactionResult)
        ensures
            exists|response_time: ResponseTime|
                r == (TransactionResult::Dropped {
                    metadata: self.dropped_metadata(virtual_user_id),
                    response_time,
                    code,
                }),
    {
        let response_time = self.metadata.start_time.elapsed();
        self.into_dropped_with(virtual_user_id, code, response_time)
    }

    /// Completes the transaction successfully; its response time is read
    /// from the clock.
    pub fn into_success(self, virtual_user_id: VirtualUserId, spec_id: SpecId, service_time: ServiceTime) -> (r: TransactionResult)
        ensures
            exists|response_time: ResponseTime|
                r == (TransactionResult::Success {
                    metadata: self.result_metadata(virtual_user_id, spec_id),
                    response_time,
                    service_time,
                }),
    {
        let response_time = self.metadata.start_time.elapsed();
        self.into_success_with(virtual_user_id, spec_id, service_time, response_time)
    }

    /// Completes the transaction as failed; its response time is read from
    /// the clock.
    pub fn into_failed(
        self,
        virtual_user_id: VirtualUserId,
        spec_id: SpecId,
        service_time: ServiceTime,
        code: FailedCode,
    ) -> (r: TransactionResult)
        ensures
            exists|response_time: ResponseTime|
                r == (TransactionResult::Failed {
                    metadata: self.result_metadata(virtual_user_id, spec_id),
                    response_time,
                    service_time,
                    code,
                }),
    {
        let response_time = self.metadata.start_time.elapsed();
        self.into_failed_with(virtual_user_id, spec_id, service_time, code, response_time)
    }

    /// Completes the transaction as timed out; its response time is read
    /// from the clock.
    pub fn into_timeout(
        self,
        virtual_user_id: VirtualUserId,
        spec_id: SpecId,
        service_time: ServiceTime,
        code: TimeoutCode,
    ) -> (r: TransactionResult)
        ensures
            exists|response_time: ResponseTime|
                r == (TransactionResult::Timeout {
                    metadata: self.result_metadata(virtual_user_id, spec_id),
                    response_time,
                    service_time,
                    code,
                }),
    {
        let response_time = self.metadata.start_time.elapsed();
        self.into_timeout_with(virtual_user_id, spec_id, service_time, code, response_time)
    }
}

} // verus!
