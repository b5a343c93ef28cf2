//! Readings of a remote thermostat, and the session that fetches one.
use vstd::prelude::*;

verus! {

/// What the thermostat reports, temperatures in tenths of a degree Celsius.
#[derive(Clone, Copy, Debug, PartialEq, Eq)]
pub enum Data {
    Heat { heat_point: i32, temperature: i32 },
    Cool { cool_point: i32, temperature: i32 },
    HeatCool { heat_point: i32, temperature: i32, cool_point: i32 },
    Off { temperature: i32 },
}


/// Why a thermostat reading could not be had.
#[derive(Clone, Copy, Debug, PartialEq, Eq)]
pub enum NestError {
    /// A credential or device identifier is not configured.
    Config,
    /// The request could not be made or its answer not read.
    Transport,
    /// The read was refused again after a fresh token.
    Unauthorized,
    /// The answer lacks a field the reading needs, or holds one of the wrong kind.
    Malformed,
    /// The eco mode is neither `OFF` nor `MANUAL_ECO`.
    UnsupportedEcoMode,
    /// The setpoints and temperature present match no reading.
    Unclassifiable,
}

/// Heat and cool setpoints of one trait, in tenths of a degree Celsius.
#[derive(Clone, Copy, Debug, PartialEq, Eq)]
pub struct Setpoints {
    pub heat: Option<i32>,
    pub cool: Option<i32>,
}

/// The fields of a device's trait set that a reading is made from.
#[derive(Clone, Debug)]
pub struct Traits {
    /// `mode` of the eco trait, where present as a string.
    pub eco_mode: Option<String>,
    /// The setpoints of the temperature setpoint trait.
    pub setpoint: Setpoints,
    /// The setpoints of the eco trait.
    pub eco: Setpoints,
    /// Ambient temperature, in tenths of a degree Celsius.
    pub temperature: Option<i32>,
}

/// The setpoints in force under the eco mode, or the error for an unknown mode.
pub open spec fn active_setpoints(t: Traits) -> Result<Setpoints, NestError> {
    match t.eco_mode {
        Some(m) => if m@ == "OFF"@ {
            Ok(t.setpoint)
        } else if m@ == "MANUAL_ECO"@ {
            Ok(t.eco)
        } else {
            Err(NestError::UnsupportedEcoMode)
        },
        None => Err(NestError::UnsupportedEcoMode),
    }
}

/// The reading that a presence pattern of heat point, temperature and cool point gives.
pub open spec fn classify(heat: Option<i32>, temperature: Option<i32>, cool: Option<i32>) -> Result<Data, NestError> {
    match (heat, temperature, cool) {
        (Some(h), Some(t), None) => Ok(Data::Heat { heat_point: h, temperature: t }),
        (None, Some(t), Some(c)) => Ok(Data::Cool { cool_point: c, temperature: t }),
        (Some(h), Some(t), Some(c)) => Ok(Data::HeatCool { heat_point: h, temperature: t, cool_point: c }),
        (None, Some(t), None) => Ok(Data::Off { temperature: t }),
        (_, None, _) => Err(NestError::Unclassifiable),
    }
}

/// The reading a trait set gives, or why it gives none.
pub open spec fn traits_data(t: Traits) -> Result<Data, NestError> {
    match active_setpoints(t) {
        Ok(p) => classify(p.heat, t.temperature, p.cool),
        Err(e) => Err(e),
    }
}

impl Data {
    /// Reads the thermostat's state out of its trait set.
    pub fn from_traits(traits: &Traits) -> (r: Result<Data, NestError>)
        ensures
            r == traits_data(*traits),
    {
        let range = match &traits.eco_mode {
            Some(mode) => {
                if mode.eq(&String::from_str("OFF")) {
                    traits.setpoint
                } else if mode.eq(&String::from_str("MANUAL_ECO")) {
                    traits.eco
                } else {
                    return Err(NestError::UnsupportedEcoMode);
                }
            },
            None => return Err(NestError::UnsupportedEcoMode),
        };
        match (range.heat, traits.temperature, range.cool) {
            (Some(h), Some(t), None) => Ok(Data::Heat { heat_point: h, temperature: t }),
            (None, Some(t), Some(c)) => Ok(Data::Cool { cool_point: c, temperature: t }),
            (Some(h), Some(t), Some(c)) => Ok(Data::HeatCool { heat_point: h, temperature: t, cool_point: c }),
            (None, Some(t), None) => Ok(Data::Off { temperature: t }),
            (_, None, _) => Err(NestError::Unclassifiable),
        }
    }
}


/// How an authenticated read of the trait set ended.
#[derive(Clone, Debug)]
pub enum ReadOutcome {
    /// The service refused the token.
    Unauthorized,
    /// The read failed otherwise.
    Failed(NestError),
    /// The device's trait set.
    Traits(Traits),
}

/// What the caller reports back after carrying out a step.
#[derive(Debug)]
pub enum Reply {
    /// The outcome of a token fetch.
    Token(Result<String, NestError>),
    /// The outcome of a read.
    Read(ReadOutcome),
}

/// Where a session of fetching one reading stands.
#[derive(Clone, Copy, Debug, PartialEq, Eq)]
pub enum Phase {
    /// No token was cached; one is being fetched.
    FetchingToken,
    /// The first read is under way.
    Reading,
    /// The first read was refused; a fresh token is being fetched.
    Refreshing,
    /// The one read with the fresh token is under way.
    Retrying,
    /// The session has its result.
    Done,
}

/// What the caller is asked to do next.
#[derive(Debug)]
pub enum Step {
    /// Fetch a token from the token endpoint and reply with `Reply::Token`.
    FetchToken,
    /// Read the trait set with this token and reply with `Reply::Read`.
    Read(String),
    /// The session is over with this result.
    Finish(Result<Data, NestError>),
}

/// A step as contracts speak of it, with the token as a sequence of characters.
pub enum StepView {
    FetchToken,
    Read(Seq<char>),
    Finish(Result<Data, NestError>),
}

impl View for Step {
    type V = StepView;

    open spec fn view(&self) -> StepView {
        match self {
            Step::FetchToken => StepView::FetchToken,
            Step::Read(t) => StepView::Read(t@),
            Step::Finish(r) => StepView::Finish(*r),
        }
    }
}

/// A cached token as contracts speak of it.
pub open spec fn token_view(t: Option<String>) -> Option<Seq<char>> {
    match t {
        Some(s) => Some(s@),
        None => None,
    }
}

/// The first step of a session: read with the cached token, or fetch one.
pub open spec fn begin_spec(cache: Option<Seq<char>>) -> (Phase, StepView) {
    match cache {
        Some(t) => (Phase::Reading, StepView::Read(t)),
        None => (Phase::FetchingToken, StepView::FetchToken),
    }
}

/// Whether a session in `phase` waits for this kind of reply.
pub open spec fn accepts_spec(phase: Phase, reply: Reply) -> bool {
    match phase {
        Phase::FetchingToken | Phase::Refreshing => reply is Token,
        Phase::Reading | Phase::Retrying => reply is Read,
        Phase::Done => false,
    }
}

/// The token cache, phase and next step after a reply.
pub open spec fn step_spec(cache: Option<Seq<char>>, phase: Phase, reply: Reply) -> (
    Option<Seq<char>>,
    Phase,
    StepView,
) {
    match reply {
        Reply::Token(Ok(t)) => (
            Some(t@),
            if phase == Phase::Refreshing {
                Phase::Retrying
            } else {
                Phase::Reading
            },
            StepView::Read(t@),
        ),
        Reply::Token(Err(e)) => (cache, Phase::Done, StepView::Finish(Err(e))),
        Reply::Read(ReadOutcome::Traits(t)) => (cache, Phase::Done, StepView::Finish(traits_data(t))),
        Reply::Read(ReadOutcome::Failed(e)) => (cache, Phase::Done, StepView::Finish(Err(e))),
        Reply::Read(ReadOutcome::Unauthorized) => if phase == Phase::Reading {
            (cache, Phase::Refreshing, StepView::FetchToken)
        } else {
            (cache, Phase::Done, StepView::Finish(Err(NestError::Unauthorized)))
        },
    }
}

/// A client of the thermostat service; it caches at most one bearer token.
pub struct Client {
    token: Option<String>,
}

/// One session of fetching a reading.
pub struct GetData {
    phase: Phase,
}

impl GetData {
    pub closed spec fn phase(&self) -> Phase {
        self.phase
    }

    /// Whether the session waits for this kind of reply.
    pub fn accepts(&self, reply: &Reply) -> (r: bool)
        ensures
            r == accepts_spec(self.phase(), *reply),
    {
        match self.phase {
            Phase::FetchingToken | Phase::Refreshing => matches!(reply, Reply::Token(_)),
            Phase::Reading | Phase::Retrying => matches!(reply, Reply::Read(_)),
            Phase::Done => false,
        }
    }
}

impl Client {
    pub closed spec fn cached(&self) -> Option<Seq<char>> {
        token_view(self.token)
    }

    /// A client with no token cached.
    pub fn new() -> (r: Client)
        ensures
            r.cached() == None::<Seq<char>>,
    {
        Client { token: None }
    }

    /// The cached token, if there is one.
    pub fn token(&self) -> (r: Option<String>)
        ensures
            token_view(r) == self.cached(),
    {
        match &self.token {
            Some(t) => Some(t.clone()),
            None => None,
        }
    }

    /// Starts a session: reads with the cached token, or asks for a fetch when none is cached.
    pub fn begin(&self) -> (r: (GetData, Step))
        ensures
            (r.0.phase(), r.1@) == begin_spec(self.cached()),
    {
        match self.token() {
            Some(t) => (GetData { phase: Phase::Reading }, Step::Read(t)),
            None => (GetData { phase: Phase::FetchingToken }, Step::FetchToken),
        }
    }

    /// Takes the reply to the last step and gives the next one. A fetched token replaces
    /// the cached one; a failed fetch leaves the cache as it was. A refused first read
    /// asks for exactly one fresh token and one more read.
    pub fn advance(&mut self, session: &mut GetData, reply: Reply) -> (r: Step)
        requires
            accepts_spec(old(session).phase(), reply),
        ensures
            (final(self).cached(), final(session).phase(), r@) == step_spec(
                old(self).cached(),
                old(session).phase(),
                reply,
            ),
    {
        match reply {
            Reply::Token(Ok(t)) => {
                session.phase = match session.phase {
                    Phase::Refreshing => Phase::Retrying,
                    _ => Phase::Reading,
                };
                let read = t.clone();
                self.token = Some(t);
                Step::Read(read)
            },
            Reply::Token(Err(e)) => {
                session.phase = Phase::Done;
                Step::Finish(Err(e))
            },
            Reply::Read(ReadOutcome::Traits(t)) => {
                session.phase = Phase::Done;
                Step::Finish(Data::from_traits(&t))
            },
            Reply::Read(ReadOutcome::Failed(e)) => {
                session.phase = Phase::Done;
                Step::Finish(Err(e))
            },
            Reply::Read(ReadOutcome::Unauthorized) => match session.phase {
                Phase::Reading => {
                    session.phase = Phase::Refreshing;
                    Step::FetchToken
                },
                _ => {
                    session.phase = Phase::Done;
                    Step::Finish(Err(NestError::Unauthorized))
                },
            },
        }
    }
}


/// A token is fetched only when none is cached, and a fetched token is cached: so of two
/// sessions with no refresh between them, only the first fetches, and the second reads
/// with the token the first obtained.
pub proof fn lemma_token_fetched_once(cache: Option<Seq<char>>, phase: Phase, t: String)
    requires
        phase == Phase::FetchingToken,
    ensures
        begin_spec(cache).1 == StepView::FetchToken <==> cache is None,
        step_spec(cache, phase, Reply::Token(Ok(t))).0 == Some(t@),
        begin_spec(step_spec(cache, phase, Reply::Token(Ok(t))).0) == (
            Phase::Reading,
            StepView::Read(t@),
        ),
{
}

/// A first read refused for its token asks for exactly one fresh token; when the read
/// with that token succeeds, the session ends with the reading from the trait set. A
/// second refusal ends the session with an error rather than another refresh.
pub proof fn lemma_refresh_once(cached: Seq<char>, fresh: String, traits: Traits)
    ensures
        begin_spec(Some(cached)) == (Phase::Reading, StepView::Read(cached)),
        step_spec(Some(cached), Phase::Reading, Reply::Read(ReadOutcome::Unauthorized)) == (
            Some(cached),
            Phase::Refreshing,
            StepView::FetchToken,
        ),
        step_spec(Some(cached), Phase::Refreshing, Reply::Token(Ok(fresh))) == (
            Some(fresh@),
            Phase::Retrying,
            StepView::Read(fresh@),
        ),
        step_spec(Some(fresh@), Phase::Retrying, Reply::Read(ReadOutcome::Traits(traits))) == (
            Some(fresh@),
            Phase::Done,
            StepView::Finish(traits_data(traits)),
        ),
        step_spec(Some(fresh@), Phase::Retrying, Reply::Read(ReadOutcome::Unauthorized)) == (
            Some(fresh@),
            Phase::Done,
            StepView::Finish(Err(NestError::Unauthorized)),
        ),
{
}


/// How many fresh tokens a session in `phase` asks for after a refused read, when the
/// replies to its steps are `replies` (those after its end are not looked at).
pub open spec fn refreshes(cache: Option<Seq<char>>, phase: Phase, replies: Seq<Reply>) -> nat
    decreases replies.len(),
{
    if replies.len() == 0 || !accepts_spec(phase, replies[0]) {
        0
    } else {
        let next = step_spec(cache, phase, replies[0]);
        (if next.1 == Phase::Refreshing {
            1nat
        } else {
            0nat
        }) + refreshes(next.0, next.1, replies.drop_first())
    }
}

proof fn lemma_no_refresh_after_refresh(cache: Option<Seq<char>>, phase: Phase, replies: Seq<Reply>)
    requires
        phase == Phase::Refreshing || phase == Phase::Retrying || phase == Phase::Done,
    ensures
        refreshes(cache, phase, replies) == 0,
    decreases replies.len(),
{
    if replies.len() > 0 && accepts_spec(phase, replies[0]) {
        let next = step_spec(cache, phase, replies[0]);
        lemma_no_refresh_after_refresh(next.0, next.1, replies.drop_first());
    }
}

/// Whatever the replies, a session asks for at most one refresh: a read refused with the
/// fresh token is not retried.
pub proof fn lemma_at_most_one_refresh(cache: Option<Seq<char>>, replies: Seq<Reply>)
    ensures
        refreshes(cache, begin_spec(cache).0, replies) <= 1,
{
    lemma_at_most_one_refresh_from(cache, begin_spec(cache).0, replies);
}

proof fn lemma_at_most_one_refresh_from(cache: Option<Seq<char>>, phase: Phase, replies: Seq<Reply>)
    ensures
        refreshes(cache, phase, replies) <= 1,
    decreases replies.len(),
{
    if phase == Phase::Refreshing || phase == Phase::Retrying || phase == Phase::Done {
        lemma_no_refresh_after_refresh(cache, phase, replies);
    } else if replies.len() > 0 && accepts_spec(phase, replies[0]) {
        let next = step_spec(cache, phase, replies[0]);
        if next.1 == Phase::Refreshing {
            lemma_no_refresh_after_refresh(next.0, next.1, replies.drop_first());
        } else {
            lemma_at_most_one_refresh_from(next.0, next.1, replies.drop_first());
        }
    }
}

/// With a token cached, a refused first read followed by a fresh token and a successful
/// read makes a session of exactly one refresh.
pub proof fn lemma_one_refresh_on_expiry(cached: Seq<char>, fresh: String, traits: Traits)
    ensures
        refreshes(
            Some(cached),
            Phase::Reading,
            seq![
                Reply::Read(ReadOutcome::Unauthorized),
                Reply::Token(Ok(fresh)),
                Reply::Read(ReadOutcome::Traits(traits)),
            ],
        ) == 1,
{
    let replies = seq![
        Reply::Read(ReadOutcome::Unauthorized),
        Reply::Token(Ok(fresh)),
        Reply::Read(ReadOutcome::Traits(traits)),
    ];
    let r1 = replies.drop_first();
    let r2 = r1.drop_first();
    let r3 = r2.drop_first();
    assert(r1[0] == Reply::Token(Ok(fresh)));
    assert(r2[0] == Reply::Read(ReadOutcome::Traits(traits)));
    assert(r3.len() == 0);
    assert(refreshes(Some(fresh@), Phase::Done, r3) == 0);
    assert(refreshes(Some(fresh@), Phase::Retrying, r2) == 0);
    assert(refreshes(Some(cached), Phase::Refreshing, r1) == 0);
}

} // verus!
