use crate::schema::{
    id_view, same_id, DeleteLogRequest, GetListRequest, GetLogRequest, Log, LogId, LogModel,
};
use vstd::prelude::*;

verus! {

/// Which logs an operation reaches. Every filter names an owner: a log of
/// another owner is never reached, whatever its identifier.
#[derive(Debug)]
pub enum LogFilter {
    /// Every log of the owner.
    Owner { user_id: String },
    /// The log of the owner that has this identifier. A filter on a missing
    /// identifier reaches no stored log, since every stored log has one.
    IdAndOwner { log_id: Option<LogId>, user_id: String },
}

/// Which logs a filter reaches, over the models of identifier and owner.
pub ghost enum FilterModel {
    Owner(Seq<char>),
    IdAndOwner(Option<Seq<u8>>, Seq<char>),
}

impl FilterModel {
    /// Whether the filter reaches a log.
    pub open spec fn admits(self, l: LogModel) -> bool {
        match self {
            FilterModel::Owner(owner) => l.user_id == owner,
            FilterModel::IdAndOwner(id, owner) => l.id == id && l.user_id == owner,
        }
    }
}

impl View for LogFilter {
    type V = FilterModel;

    open spec fn view(&self) -> FilterModel {
        match self {
            LogFilter::Owner { user_id } => FilterModel::Owner(user_id@),
            LogFilter::IdAndOwner { log_id, user_id } => FilterModel::IdAndOwner(
                id_view(*log_id),
                user_id@,
            ),
        }
    }
}

impl LogFilter {
    /// Whether the filter reaches `log`.
    pub fn admits_log(&self, log: &Log) -> (r: bool)
        ensures
            r == self@.admits(log@),
    {
        match self {
            LogFilter::Owner { user_id } => log.user_id == *user_id,
            LogFilter::IdAndOwner { log_id, user_id } => same_id(&log._id, log_id) && log.user_id
                == *user_id,
        }
    }
}

/// The filter of a read: the requested identifier and owner together.
pub fn retrieval_filter(req: &GetLogRequest) -> (r: LogFilter)
    ensures
        r == (LogFilter::IdAndOwner { log_id: Some(req.log_id), user_id: req.user_id }),
{
    LogFilter::IdAndOwner { log_id: Some(req.log_id), user_id: req.user_id.clone() }
}

/// The filter of a deletion: the requested identifier and owner together.
pub fn deletion_filter(req: &DeleteLogRequest) -> (r: LogFilter)
    ensures
        r == (LogFilter::IdAndOwner { log_id: Some(req.log_id), user_id: req.user_id }),
{
    LogFilter::IdAndOwner { log_id: Some(req.log_id), user_id: req.user_id.clone() }
}

/// The filter of a replacement: the identifier and owner of the new log.
pub fn replacement_filter(log: &Log) -> (r: LogFilter)
    ensures
        r == (LogFilter::IdAndOwner { log_id: log._id, user_id: log.user_id }),
{
    LogFilter::IdAndOwner { log_id: log._id, user_id: log.user_id.clone() }
}

/// The filter of a listing: the requested owner.
pub fn listing_filter(req: &GetListRequest) -> (r: LogFilter)
    ensures
        r == (LogFilter::Owner { user_id: req.user_id }),
{
    LogFilter::Owner { user_id: req.user_id.clone() }
}

} // verus!
