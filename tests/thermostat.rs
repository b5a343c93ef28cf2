use nest_display::nest::{
    Client, Data, GetData, NestError, ReadOutcome, Reply, Setpoints, Step, Traits,
};

fn traits(mode: &str, setpoint: Setpoints, eco: Setpoints, temperature: Option<i32>) -> Traits {
    Traits { eco_mode: Some(mode.to_string()), setpoint, eco, temperature }
}

fn none() -> Setpoints {
    Setpoints { heat: None, cool: None }
}

/// Runs one session, answering each step from `replies` in turn; returns the result and
/// how many token fetches were asked for.
fn run(client: &mut Client, mut replies: Vec<Reply>) -> (Result<Data, NestError>, usize) {
    let (mut session, mut step): (GetData, Step) = client.begin();
    let mut fetches = 0;
    replies.reverse();
    loop {
        match step {
            Step::Finish(r) => return (r, fetches),
            Step::FetchToken => fetches += 1,
            Step::Read(_) => {}
        }
        let reply = replies.pop().expect("a reply for every step");
        assert!(session.accepts(&reply));
        step = client.advance(&mut session, reply);
    }
}

fn token(s: &str) -> Reply {
    Reply::Token(Ok(s.to_string()))
}

fn read(t: Traits) -> Reply {
    Reply::Read(ReadOutcome::Traits(t))
}

#[test]
fn eco_off_with_heat_point_is_heat() {
    let t = traits("OFF", Setpoints { heat: Some(200), cool: None }, none(), Some(215));
    assert_eq!(Data::from_traits(&t), Ok(Data::Heat { heat_point: 200, temperature: 215 }));
}

#[test]
fn manual_eco_with_both_points_is_heat_cool() {
    let t = traits("MANUAL_ECO", none(), Setpoints { heat: Some(180), cool: Some(240) }, Some(190));
    assert_eq!(
        Data::from_traits(&t),
        Ok(Data::HeatCool { heat_point: 180, temperature: 190, cool_point: 240 })
    );
}

#[test]
fn temperature_alone_is_off() {
    let t = traits("OFF", none(), none(), Some(213));
    assert_eq!(Data::from_traits(&t), Ok(Data::Off { temperature: 213 }));
}

#[test]
fn cool_point_alone_is_cool() {
    let t = traits("OFF", Setpoints { heat: None, cool: Some(250) }, none(), Some(260));
    assert_eq!(Data::from_traits(&t), Ok(Data::Cool { cool_point: 250, temperature: 260 }));
}

#[test]
fn setpoint_without_temperature_is_an_error() {
    let t = traits("OFF", Setpoints { heat: Some(200), cool: Some(240) }, none(), None);
    assert_eq!(Data::from_traits(&t), Err(NestError::Unclassifiable));
}

#[test]
fn unknown_eco_mode_is_an_error() {
    let t = traits("HEAT_ONLY", Setpoints { heat: Some(200), cool: None }, none(), Some(215));
    assert_eq!(Data::from_traits(&t), Err(NestError::UnsupportedEcoMode));
    let mut missing = t.clone();
    missing.eco_mode = None;
    assert_eq!(Data::from_traits(&missing), Err(NestError::UnsupportedEcoMode));
}

#[test]
fn manual_eco_ignores_the_setpoint_trait() {
    let t = traits("MANUAL_ECO", Setpoints { heat: Some(200), cool: None }, none(), Some(215));
    assert_eq!(Data::from_traits(&t), Ok(Data::Off { temperature: 215 }));
}

#[test]
fn first_session_fetches_and_second_reuses_the_token() {
    let mut client = Client::new();
    assert_eq!(client.token(), None);
    let t = traits("OFF", none(), none(), Some(200));
    let (r, fetches) = run(&mut client, vec![token("Bearer a"), read(t.clone())]);
    assert_eq!(r, Ok(Data::Off { temperature: 200 }));
    assert_eq!(fetches, 1);
    assert_eq!(client.token(), Some("Bearer a".to_string()));
    let (session, step) = client.begin();
    assert!(matches!(step, Step::Read(ref s) if s == "Bearer a"));
    drop(session);
    let (r, fetches) = run(&mut client, vec![read(t)]);
    assert_eq!(r, Ok(Data::Off { temperature: 200 }));
    assert_eq!(fetches, 0);
}

#[test]
fn expired_token_is_refreshed_once_and_the_read_retried() {
    let mut client = Client::new();
    let t = traits("OFF", Setpoints { heat: Some(200), cool: None }, none(), Some(215));
    let (_, _) = run(&mut client, vec![token("Bearer old"), read(t.clone())]);
    let (r, fetches) = run(
        &mut client,
        vec![Reply::Read(ReadOutcome::Unauthorized), token("Bearer new"), read(t)],
    );
    assert_eq!(r, Ok(Data::Heat { heat_point: 200, temperature: 215 }));
    assert_eq!(fetches, 1);
    assert_eq!(client.token(), Some("Bearer new".to_string()));
}

#[test]
fn second_refusal_is_an_error() {
    let mut client = Client::new();
    let (r, fetches) = run(
        &mut client,
        vec![
            token("Bearer a"),
            Reply::Read(ReadOutcome::Unauthorized),
            token("Bearer b"),
            Reply::Read(ReadOutcome::Unauthorized),
        ],
    );
    assert_eq!(r, Err(NestError::Unauthorized));
    assert_eq!(fetches, 2);
}

#[test]
fn failed_fetch_keeps_the_cached_token() {
    let mut client = Client::new();
    let t = traits("OFF", none(), none(), Some(200));
    let _ = run(&mut client, vec![token("Bearer a"), read(t)]);
    let (r, _) = run(
        &mut client,
        vec![Reply::Read(ReadOutcome::Unauthorized), Reply::Token(Err(NestError::Config))],
    );
    assert_eq!(r, Err(NestError::Config));
    assert_eq!(client.token(), Some("Bearer a".to_string()));
}

#[test]
fn failed_read_is_reported() {
    let mut client = Client::new();
    let (r, _) = run(
        &mut client,
        vec![token("Bearer a"), Reply::Read(ReadOutcome::Failed(NestError::Transport))],
    );
    assert_eq!(r, Err(NestError::Transport));
    let (r, _) = run(&mut client, vec![Reply::Read(ReadOutcome::Failed(NestError::Malformed))]);
    assert_eq!(r, Err(NestError::Malformed));
}

#[test]
fn session_refuses_a_reply_of_the_wrong_kind() {
    let client = Client::new();
    let (session, step) = client.begin();
    assert!(matches!(step, Step::FetchToken));
    assert!(!session.accepts(&Reply::Read(ReadOutcome::Unauthorized)));
    assert!(session.accepts(&token("x")));
}
