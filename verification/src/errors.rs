//! The failures that a transaction reports to its caller.

use vstd::prelude::*;

verus! {

/// The transport's own error type. It is carried through unread.
#[verifier::external_type_specification]
#[verifier::external_body]
pub struct ExGrpcError(grpc::Error);

/// Why an operation on a transaction failed.
#[derive(Debug)]
pub enum DgraphError {
    /// The transaction has already been committed or discarded.
    Finished,
    /// A response carried no transaction context.
    EmptyTransaction,
    /// A mutation or a commit was attempted on a read-only transaction.
    ReadOnly,
    /// A response carried a start timestamp other than the transaction's own.
    StartTsMismatch,
    /// The transport failed.
    GrpcError(grpc::Error),
    /// An unclassified failure.
    Unknown,
}

impl DgraphError {
    /// The text that describes this failure to a user.
    pub open spec fn text(&self) -> Seq<char> {
        match self {
            DgraphError::Finished => "Dgraph client already finished"@,
            DgraphError::EmptyTransaction => "EmptyTransaction"@,
            DgraphError::ReadOnly => "Can not mutate, set to read only"@,
            DgraphError::StartTsMismatch => "StartTsMismatch"@,
            DgraphError::GrpcError(_) => "GrpcError"@,
            DgraphError::Unknown => "UnknownError"@,
        }
    }

    /// Whether this failure was found locally, before anything was sent.
    pub open spec fn is_validation(&self) -> bool {
        self is Finished || self is ReadOnly
    }

    /// Describes the failure in words.
    pub fn message(&self) -> (r: String)
        ensures
            r@ == self.text(),
    {
        match self {
            DgraphError::Finished => "Dgraph client already finished".to_owned(),
            DgraphError::EmptyTransaction => "EmptyTransaction".to_owned(),
            DgraphError::ReadOnly => "Can not mutate, set to read only".to_owned(),
            DgraphError::StartTsMismatch => "StartTsMismatch".to_owned(),
            DgraphError::GrpcError(_) => "GrpcError".to_owned(),
            DgraphError::Unknown => "UnknownError".to_owned(),
        }
    }
}

impl From<grpc::Error> for DgraphError {
    /// A transport failure becomes `GrpcError`, which keeps the error of the transport.
    fn from(e: grpc::Error) -> (r: DgraphError) {
        DgraphError::GrpcError(e)
    }
}

impl vstd::std_specs::convert::FromSpecImpl<grpc::Error> for DgraphError {
    open spec fn obeys_from_spec() -> bool {
        true
    }

    open spec fn from_spec(e: grpc::Error) -> DgraphError {
        DgraphError::GrpcError(e)
    }
}

} // verus!
