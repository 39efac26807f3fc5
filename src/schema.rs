use chrono::Utc;
use mongodb::bson::oid::ObjectId;
use vstd::prelude::*;

verus! {

/// The identifier of a stored log: the twelve bytes of a document id.
#[derive(Clone, Copy, Debug)]
pub struct LogId {
    pub bytes: [u8; 12],
}

impl View for LogId {
    type V = Seq<u8>;

    open spec fn view(&self) -> Seq<u8> {
        self.bytes@
    }
}

impl LogId {
    pub fn from_bytes(bytes: [u8; 12]) -> (r: LogId)
        ensures
            r.bytes == bytes,
    {
        LogId { bytes }
    }

    /// Whether the two identifiers hold the same bytes.
    pub fn same_as(&self, other: &LogId) -> (r: bool)
        ensures
            r == (self@ == other@),
    {
        let mut i: usize = 0;
        while i < 12
            invariant
                i <= 12,
                self@.len() == 12,
                other@.len() == 12,
                forall|j: int| 0 <= j < i ==> self@[j] == other@[j],
            decreases 12 - i,
        {
            if self.bytes[i] != other.bytes[i] {
                return false;
            }
            i = i + 1;
        }
        assert(self@ =~= other@);
        true
    }
}

/// Relies on bson's `ObjectId::new`, which draws a fresh document id from the
/// clock, the process and a counter, and `ObjectId::bytes`, which hands out
/// its twelve bytes.
#[verifier::external_body]
pub(crate) fn fresh_object_id() -> (r: LogId)
{
    LogId { bytes: ObjectId::new().bytes() }
}

/// Relies on chrono's `Utc::now` and `DateTime::timestamp`: the seconds since
/// the Unix epoch of the present moment. `Utc::now` panics on a clock set
/// before the epoch, so a value that comes back is not negative.
#[verifier::external_body]
fn now_seconds() -> (r: i64)
    ensures
        r >= 0,
{
    Utc::now().timestamp()
}

/// What an observation holds, as text.
pub ghost struct ObservationModel {
    pub object_name: Seq<char>,
    pub object_location: Seq<char>,
    pub equipment: Seq<char>,
    pub eyepiece: Seq<char>,
    pub notes: Seq<char>,
}

/// What a log holds: its identifier (if one was given), its owner, its time in
/// seconds since the Unix epoch and its observation.
pub ghost struct LogModel {
    pub id: Option<Seq<u8>>,
    pub user_id: Seq<char>,
    pub date: int,
    pub observation: ObservationModel,
}

/// The request that creates a log.
#[derive(Debug)]
pub struct ObservationRequest {
    pub user_id: String,
    pub object_name: String,
    pub object_location: String,
    pub equipment: String,
    pub eyepiece: String,
    pub notes: String,
}

impl ObservationRequest {
    /// The observation that the request describes.
    pub open spec fn observation_view(&self) -> ObservationModel {
        ObservationModel {
            object_name: self.object_name@,
            object_location: self.object_location@,
            equipment: self.equipment@,
            eyepiece: self.eyepiece@,
            notes: self.notes@,
        }
    }
}

/// The request that reads one log of one owner.
#[derive(Debug)]
pub struct GetLogRequest {
    pub log_id: LogId,
    pub user_id: String,
}

/// The request that lists the logs of one owner.
#[derive(Debug)]
pub struct GetListRequest {
    pub user_id: String,
}

/// The request that deletes one log of one owner.
#[derive(Debug)]
pub struct DeleteLogRequest {
    pub log_id: LogId,
    pub user_id: String,
}

/// One observation of a sky object.
#[derive(Debug)]
pub struct Observation {
    pub object_name: String,
    pub object_location: String,
    pub equipment: String,
    pub eyepiece: String,
    pub notes: String,
}

impl View for Observation {
    type V = ObservationModel;

    open spec fn view(&self) -> ObservationModel {
        ObservationModel {
            object_name: self.object_name@,
            object_location: self.object_location@,
            equipment: self.equipment@,
            eyepiece: self.eyepiece@,
            notes: self.notes@,
        }
    }
}

impl Observation {
    pub fn new(
        object_name: String,
        object_location: String,
        equipment: String,
        eyepiece: String,
        notes: String,
    ) -> (r: Observation)
        ensures
            r.object_name@ == object_name@,
            r.object_location@ == object_location@,
            r.equipment@ == equipment@,
            r.eyepiece@ == eyepiece@,
            r.notes@ == notes@,
    {
        Observation { object_name, object_location, equipment, eyepiece, notes }
    }

    /// Copies the five text fields of the request, verbatim.
    pub fn from_request(req: &ObservationRequest) -> (r: Observation)
        ensures
            r@ == req.observation_view(),
    {
        Self::new(
            req.object_name.clone(),
            req.object_location.clone(),
            req.equipment.clone(),
            req.eyepiece.clone(),
            req.notes.clone(),
        )
    }

    /// A copy of the observation.
    pub fn duplicate(&self) -> (r: Observation)
        ensures
            r@ == self@,
    {
        Observation {
            object_name: self.object_name.clone(),
            object_location: self.object_location.clone(),
            equipment: self.equipment.clone(),
            eyepiece: self.eyepiece.clone(),
            notes: self.notes.clone(),
        }
    }

    /// Whether the two observations hold the same text in every field.
    pub fn same_as(&self, other: &Observation) -> (r: bool)
        ensures
            r == (self@ == other@),
    {
        self.object_name == other.object_name && self.object_location == other.object_location
            && self.equipment == other.equipment && self.eyepiece == other.eyepiece
            && self.notes == other.notes
    }
}

/// A stored observation log. `date` counts seconds since the Unix epoch.
#[derive(Debug)]
pub struct Log {
    pub _id: Option<LogId>,
    pub user_id: String,
    pub date: i64,
    pub observation: Observation,
}

/// The model of an optional identifier.
pub open spec fn id_view(id: Option<LogId>) -> Option<Seq<u8>> {
    match id {
        Some(i) => Some(i@),
        None => None,
    }
}

impl View for Log {
    type V = LogModel;

    open spec fn view(&self) -> LogModel {
        LogModel {
            id: id_view(self._id),
            user_id: self.user_id@,
            date: self.date as int,
            observation: self.observation@,
        }
    }
}

/// Whether two optional identifiers are equal.
pub fn same_id(a: &Option<LogId>, b: &Option<LogId>) -> (r: bool)
    ensures
        r == (id_view(*a) == id_view(*b)),
{
    match (a, b) {
        (Some(x), Some(y)) => x.same_as(y),
        (None, None) => true,
        _ => false,
    }
}

impl Log {
    /// A log of the given parts, as they are.
    pub fn with_parts(_id: Option<LogId>, user_id: String, date: i64, observation: Observation) -> (r: Log)
        ensures
            r._id == _id,
            r.user_id@ == user_id@,
            r.date == date,
            r.observation@ == observation@,
    {
        Log { _id, user_id, date, observation }
    }

    /// A new log of `user_id` that holds a copy of `observation`, with a fresh
    /// identifier and the present time.
    pub fn new(user_id: &str, observation: &Observation) -> (r: Log)
        ensures
            r._id is Some,
            r.user_id@ == user_id@,
            r.date >= 0,
            r.observation@ == observation@,
    {
        let id = fresh_object_id();
        let date = now_seconds();
        Self::with_parts(Some(id), user_id.to_owned(), date, observation.duplicate())
    }

    /// The new log that a create request describes: its owner and its
    /// observation come from the request verbatim.
    pub fn from_observation_request(req: &ObservationRequest) -> (r: Log)
        ensures
            r._id is Some,
            r.user_id@ == req.user_id@,
            r.date >= 0,
            r.observation@ == req.observation_view(),
    {
        let observation = Observation::from_request(req);
        Self::new(req.user_id.as_str(), &observation)
    }

    /// A copy of the log.
    pub fn duplicate(&self) -> (r: Log)
        ensures
            r@ == self@,
    {
        Log {
            _id: self._id,
            user_id: self.user_id.clone(),
            date: self.date,
            observation: self.observation.duplicate(),
        }
    }

    /// Whether the two logs agree in every field.
    pub fn same_as(&self, other: &Log) -> (r: bool)
        ensures
            r == (self@ == other@),
    {
        same_id(&self._id, &other._id) && self.user_id == other.user_id
            && self.date == other.date && self.observation.same_as(&other.observation)
    }
}

} // verus!
