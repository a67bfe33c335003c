//! The outcome of a transaction and the metadata carried with it.
use vstd::prelude::*;
use crate::load::{RelativeLoadTestTime, ResponseTime, ServiceTime};
use crate::transaction::id::{LoadGeneratorId, SpecId};
use crate::virtual_user::VirtualUserId;

verus! {

/// Metadata of a transaction that reached the system under test.
#[derive(Debug, Clone, PartialEq, Eq)]
pub struct ResultMetadata {
    pub spec_id: SpecId,
    pub virtual_user_id: VirtualUserId,
    pub loadgenerator_id: LoadGeneratorId,
    pub start_time: RelativeLoadTestTime,
    pub target_time: RelativeLoadTestTime,
}

/// Metadata of a transaction that was never sent.
#[derive(Debug, Clone, PartialEq, Eq)]
pub struct DroppedMetadata {
    pub virtual_user_id: VirtualUserId,
    pub loadgenerator_id: LoadGeneratorId,
    pub start_time: RelativeLoadTestTime,
    pub target_time: RelativeLoadTestTime,
}

/// Why a transaction was dropped.
#[derive(Debug, Clone, PartialEq, Eq)]
pub enum DroppedCode {
    WaitTimeTooLong(ResponseTime),
    Error(String),
}

/// Why a transaction failed.
#[derive(Debug, Clone, PartialEq, Eq)]
pub enum FailedCode {
    Send(String),
    Extract(String),
    Status(u16),
}

/// Why a transaction timed out.
#[derive(Debug, Clone, PartialEq, Eq)]
pub enum TimeoutCode {
    Error(String),
}

/// The outcome of one transaction.
#[derive(Debug, Clone, PartialEq, Eq)]
pub enum TransactionResult {
    Success {
        metadata: ResultMetadata,
        response_time: ResponseTime,
        service_time: ServiceTime,
    },
    Failed {
        metadata: ResultMetadata,
        response_time: ResponseTime,
        service_time: ServiceTime,
        code: FailedCode,
    },
    Timeout {
        metadata: ResultMetadata,
        response_time: ResponseTime,
        service_time: ServiceTime,
        code: TimeoutCode,
    },
    Dropped {
        metadata: DroppedMetadata,
        response_time: ResponseTime,
        code: DroppedCode,
    },
}

impl TransactionResult {
    /// The service time of a transaction that reached the system under test;
    /// `None` for a dropped transaction.
    pub open spec fn spec_service_time(self) -> Option<ServiceTime> {
        match self {
            TransactionResult::Success { service_time, .. } => Some(service_time),
            TransactionResult::Failed { service_time, .. } => Some(service_time),
            TransactionResult::Timeout { service_time, .. } => Some(service_time),
            TransactionResult::Dropped { .. } => None,
        }
    }

    /// The end-to-end response time of any transaction.
    pub open spec fn spec_response_time(self) -> ResponseTime {
        match self {
            TransactionResult::Success { response_time, .. } => response_time,
            TransactionResult::Failed { response_time, .. } => response_time,
            TransactionResult::Timeout { response_time, .. } => response_time,
            TransactionResult::Dropped { response_time, .. } => response_time,
        }
    }
}

} // verus!
