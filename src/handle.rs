//! The channels between the clients and the refresher, and the handle through which clients
//! reach it.
use std::sync::Arc;

use vstd::prelude::*;

use tokio::sync::{mpsc, oneshot, Notify};

use crate::committee::{ActiveCommittees, PriceComputation};
use crate::refresh::RequestKind;

verus! {

/// The broadcast primitive of tokio that wakes the callers awaiting a committee change, carried
/// through without being looked into.
#[verifier::external_type_specification]
#[verifier::external_body]
pub struct ExNotify(Notify);

/// The sending side of tokio's bounded request queue, carried through without being looked into.
#[verifier::external_type_specification]
#[verifier::external_body]
#[verifier::reject_recursive_types(T)]
pub struct ExMpscSender<T>(mpsc::Sender<T>);

/// The sending side of tokio's one-shot reply channel, carried through without being looked into.
#[verifier::external_type_specification]
#[verifier::external_body]
#[verifier::reject_recursive_types(T)]
pub struct ExOneshotSender<T>(oneshot::Sender<T>);

/// The error of tokio's request queue when the refresher is gone.
#[verifier::external_type_specification]
#[verifier::external_body]
#[verifier::reject_recursive_types(T)]
pub struct ExSendError<T>(mpsc::error::SendError<T>);

/// The error of tokio's one-shot channel when the reply never came.
#[verifier::external_type_specification]
#[verifier::external_body]
pub struct ExRecvError(oneshot::error::RecvError);

/// Relies on tokio's `Sender::clone` for the request queue: it hands out another sender to the
/// same queue, which nothing here looks into.
pub assume_specification<T>[ <mpsc::Sender<T> as Clone>::clone ](s: &mpsc::Sender<T>) -> mpsc::Sender<T>;

/// The channel on which a request is answered.
pub type CommitteesRequestChannel = oneshot::Sender<(Arc<ActiveCommittees>, PriceComputation)>;

/// The request that the client can make to the refresher.
#[derive(Debug)]
pub struct CommitteesRequest {
    kind: RequestKind,
    tx: CommitteesRequestChannel,
}

impl CommitteesRequest {
    /// Creates a request of the given kind, answered on `tx`.
    pub fn new(kind: RequestKind, tx: CommitteesRequestChannel) -> (r: Self)
        ensures
            r.kind() == kind,
            r.reply_channel() == tx,
    {
        CommitteesRequest { kind, tx }
    }

    /// The kind of the request.
    pub closed spec fn kind(&self) -> RequestKind {
        self.kind
    }

    /// The channel on which the request is answered.
    pub closed spec fn reply_channel(&self) -> CommitteesRequestChannel {
        self.tx
    }

    /// Returns the kind of the request.
    pub fn request_kind(&self) -> (r: RequestKind)
        ensures
            r == self.kind(),
    {
        self.kind
    }

    /// Returns the reply oneshot channel.
    pub fn into_reply_channel(self) -> (r: CommitteesRequestChannel)
        ensures
            r == self.reply_channel(),
    {
        self.tx
    }

    /// Returns true if the request is of kind `Refresh`.
    pub fn is_refresh(&self) -> (r: bool)
        ensures
            r == (self.kind() == RequestKind::Refresh),
    {
        match self.kind {
            RequestKind::Refresh => true,
            RequestKind::Get => false,
        }
    }
}

/// An error that occurs when communicating with the refresher.
#[derive(Debug)]
pub enum RefresherCommunicationError {
    /// The request could not be queued: the refresher is gone.
    Send(mpsc::error::SendError<CommitteesRequest>),
    /// The reply never arrived: the refresher dropped the request unanswered.
    Receive(oneshot::error::RecvError),
}

/// A handle to communicate with the refresher.
#[derive(Debug, Clone)]
pub struct CommitteesRefresherHandle {
    notify: Arc<Notify>,
    req_tx: mpsc::Sender<CommitteesRequest>,
}

impl CommitteesRefresherHandle {
    /// Creates a new handle to communicate with the refresher.
    pub fn new(notify: Arc<Notify>, req_tx: mpsc::Sender<CommitteesRequest>) -> (r: Self)
        ensures
            r.notifier() == notify,
            r.sender() == req_tx,
    {
        CommitteesRefresherHandle { notify, req_tx }
    }

    /// The notifier shared with the refresher.
    pub closed spec fn notifier(&self) -> Arc<Notify> {
        self.notify
    }

    /// The sending side of the request queue.
    pub closed spec fn sender(&self) -> mpsc::Sender<CommitteesRequest> {
        self.req_tx
    }

    /// Returns the notifier shared with the refresher.
    pub fn notify(&self) -> (r: &Arc<Notify>)
        ensures
            *r == self.notifier(),
    {
        &self.notify
    }

    /// Returns the sending side of the request queue.
    pub fn req_tx(&self) -> (r: &mpsc::Sender<CommitteesRequest>)
        ensures
            *r == self.sender(),
    {
        &self.req_tx
    }
}

} // verus!
