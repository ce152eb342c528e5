use send_pocket_to_kindle::command;
use send_pocket_to_kindle::domain::repository::kindle::{self, KindleRepository};
use send_pocket_to_kindle::domain::repository::pocket::{
    ListOutput, MarkAsSentInput, PocketRepository, StartLoginOutput, WaitLoginOutput,
};
use send_pocket_to_kindle::domain::repository::readability::{
    ConvertInput, ConvertOutput, ReadabilityRepository,
};
use send_pocket_to_kindle::domain::service::pocket::{IsLoginOutput, PocketService};
use send_pocket_to_kindle::domain::service::send_to_kindle::{
    SendInput, SendOutput, SendToKindleService,
};
use send_pocket_to_kindle::domain::Article;
use send_pocket_to_kindle::env::Env;
use send_pocket_to_kindle::error::SessionError;
use send_pocket_to_kindle::repository::pocket::login::LoginPhase;
use send_pocket_to_kindle::service::pocket::{
    is_login_output, list_output, start_login_output, PocketServiceImpl,
};
use send_pocket_to_kindle::service::send_to_kindle::{article_ids, SendToKindleServiceImpl};
use send_pocket_to_kindle::state::{AppState, STATE_FILE_NAME};
use std::cell::RefCell;
use std::rc::Rc;

type Log = Rc<RefCell<Vec<String>>>;

fn article(id: &str) -> Article {
    Article {
        id: id.to_string(),
        title: format!("title {}", id),
        url: format!("http://example.com/{}", id),
        cover: None,
        contents: format!("excerpt {}", id),
    }
}

struct FakePocket {
    log: Log,
    token: RefCell<Option<String>>,
    load: Result<(), SessionError>,
    save: Result<(), SessionError>,
    list: Result<Vec<Article>, SessionError>,
    mark: Result<(), SessionError>,
}

impl FakePocket {
    fn new(log: &Log) -> Self {
        FakePocket {
            log: log.clone(),
            token: RefCell::new(None),
            load: Ok(()),
            save: Ok(()),
            list: Ok(vec![]),
            mark: Ok(()),
        }
    }
}

impl PocketRepository for FakePocket {
    fn is_login(&self) -> bool {
        self.log.borrow_mut().push("is_login".to_string());
        self.token.borrow().is_some()
    }

    fn load_state(&mut self) -> Result<(), SessionError> {
        self.log.borrow_mut().push("load_state".to_string());
        if self.load.is_ok() {
            *self.token.borrow_mut() = Some("loaded".to_string());
        }
        self.load
    }

    fn save_state(&mut self) -> Result<(), SessionError> {
        self.log.borrow_mut().push("save_state".to_string());
        self.save
    }

    fn start_login(&mut self) -> Result<StartLoginOutput, SessionError> {
        self.log.borrow_mut().push("start_login".to_string());
        Ok(StartLoginOutput { auth_url: "http://consent".to_string() })
    }

    fn wait_login(&mut self) -> Result<WaitLoginOutput, SessionError> {
        self.log.borrow_mut().push("wait_login".to_string());
        Err(SessionError::NoLoginInProgress)
    }

    fn logout(&mut self) -> Result<(), SessionError> {
        self.log.borrow_mut().push("logout".to_string());
        Err(SessionError::NotLoggedIn)
    }

    fn list(&mut self) -> Result<ListOutput, SessionError> {
        self.log.borrow_mut().push("list".to_string());
        match &self.list {
            Ok(articles) => Ok(ListOutput { articles: articles.clone() }),
            Err(e) => Err(*e),
        }
    }

    fn mark_as_sent(&mut self, input: MarkAsSentInput) -> Result<(), SessionError> {
        self.log.borrow_mut().push(format!("mark_as_sent {}", input.ids.join(",")));
        self.mark
    }
}

struct FakeReadability {
    log: Log,
    fail_on: Option<String>,
}

impl ReadabilityRepository for FakeReadability {
    fn convert(&mut self, input: ConvertInput) -> Result<ConvertOutput, SessionError> {
        self.log.borrow_mut().push(format!("convert {}", input.article.id));
        if self.fail_on.as_deref() == Some(input.article.id.as_str()) {
            return Err(SessionError::DeserializationError);
        }
        let mut article = input.article;
        article.contents = format!("readable {}", article.id);
        Ok(ConvertOutput { article })
    }
}

struct FakeKindle {
    log: Log,
    result: Result<(), SessionError>,
}

impl KindleRepository for FakeKindle {
    fn send(&mut self, input: kindle::SendInput) -> Result<(), SessionError> {
        let contents: Vec<String> = input.articles.iter().map(|a| a.contents.clone()).collect();
        self.log.borrow_mut().push(format!("send {}", contents.join(",")));
        self.result
    }
}

fn entries(log: &Log) -> Vec<String> {
    log.borrow().clone()
}

#[test]
fn is_login_loads_the_state_first() {
    let log = Log::default();
    let mut service = PocketServiceImpl::new(FakePocket::new(&log));
    assert_eq!(service.is_login(), Ok(IsLoginOutput { is_login: true }));
    assert_eq!(entries(&log), vec!["load_state", "is_login"]);
}

#[test]
fn is_login_hands_a_failed_load_on() {
    let log = Log::default();
    let mut pocket = FakePocket::new(&log);
    pocket.load = Err(SessionError::DeserializationError);
    let mut service = PocketServiceImpl::new(pocket);
    assert_eq!(service.is_login(), Err(SessionError::DeserializationError));
    assert_eq!(entries(&log), vec!["load_state"]);
}

#[test]
fn start_login_passes_the_consent_url_on() {
    let log = Log::default();
    let mut service = PocketServiceImpl::new(FakePocket::new(&log));
    assert_eq!(service.start_login().unwrap().auth_url, "http://consent");
    assert_eq!(service.logout(), Err(SessionError::NotLoggedIn));
    assert_eq!(entries(&log), vec!["start_login", "logout"]);
}

#[test]
fn list_persists_the_session_after_the_listing() {
    let log = Log::default();
    let mut pocket = FakePocket::new(&log);
    pocket.list = Ok(vec![article("a"), article("b")]);
    let mut service = PocketServiceImpl::new(pocket);
    assert_eq!(service.list().unwrap().articles, vec![article("a"), article("b")]);
    assert_eq!(entries(&log), vec!["list", "save_state"]);
}

#[test]
fn a_failed_listing_persists_nothing() {
    let log = Log::default();
    let mut pocket = FakePocket::new(&log);
    pocket.list = Err(SessionError::UpstreamError);
    let mut service = PocketServiceImpl::new(pocket);
    assert_eq!(service.list().err(), Some(SessionError::UpstreamError));
    assert_eq!(entries(&log), vec!["list"]);
}

#[test]
fn a_listing_that_cannot_be_persisted_fails() {
    let log = Log::default();
    let mut pocket = FakePocket::new(&log);
    pocket.list = Ok(vec![article("a")]);
    pocket.save = Err(SessionError::IoError);
    let mut service = PocketServiceImpl::new(pocket);
    assert_eq!(service.list().err(), Some(SessionError::IoError));
}

#[test]
fn the_outputs_of_the_session_service() {
    assert_eq!(is_login_output(true), IsLoginOutput { is_login: true });
    assert_eq!(is_login_output(false), IsLoginOutput { is_login: false });
    assert_eq!(
        start_login_output(StartLoginOutput { auth_url: "u".to_string() }).auth_url,
        "u"
    );
    let listed = ListOutput { articles: vec![article("a")] };
    assert_eq!(list_output(listed, Ok(())).unwrap().articles, vec![article("a")]);
    let listed = ListOutput { articles: vec![article("a")] };
    assert_eq!(list_output(listed, Err(SessionError::NotLoggedIn)).err(), Some(SessionError::NotLoggedIn));
}

#[test]
fn the_ids_of_the_articles_in_order() {
    assert_eq!(article_ids(&vec![]), Vec::<String>::new());
    assert_eq!(
        article_ids(&vec![article("b"), article("a"), article("b")]),
        vec!["b".to_string(), "a".to_string(), "b".to_string()]
    );
}

fn delivery(log: &Log, mark: Result<(), SessionError>, fail_on: Option<&str>, send: Result<(), SessionError>)
    -> SendToKindleServiceImpl<FakeKindle, FakePocket, FakeReadability> {
    let mut pocket = FakePocket::new(log);
    pocket.mark = mark;
    SendToKindleServiceImpl::new(
        FakeKindle { log: log.clone(), result: send },
        pocket,
        FakeReadability { log: log.clone(), fail_on: fail_on.map(str::to_string) },
    )
}

#[test]
fn send_marks_converts_and_delivers() {
    let log = Log::default();
    let mut service = delivery(&log, Ok(()), None, Ok(()));
    let input = SendInput { articles: vec![article("a"), article("b")] };
    assert_eq!(service.send(input), Ok(SendOutput {}));
    assert_eq!(
        entries(&log),
        vec!["mark_as_sent a,b", "convert a", "convert b", "send readable a,readable b"]
    );
}

#[test]
fn send_of_nothing_still_delivers() {
    let log = Log::default();
    let mut service = delivery(&log, Ok(()), None, Ok(()));
    assert_eq!(service.send(SendInput { articles: vec![] }), Ok(SendOutput {}));
    assert_eq!(entries(&log), vec!["mark_as_sent ", "send "]);
}

#[test]
fn send_stops_at_the_first_failure() {
    let log = Log::default();
    let mut service = delivery(&log, Err(SessionError::NotLoggedIn), None, Ok(()));
    let input = SendInput { articles: vec![article("a")] };
    assert_eq!(service.send(input), Err(SessionError::NotLoggedIn));
    assert_eq!(entries(&log), vec!["mark_as_sent a"]);

    let log = Log::default();
    let mut service = delivery(&log, Ok(()), Some("b"), Ok(()));
    let input = SendInput { articles: vec![article("a"), article("b"), article("c")] };
    assert_eq!(service.send(input), Err(SessionError::DeserializationError));
    assert_eq!(entries(&log), vec!["mark_as_sent a,b,c", "convert a", "convert b"]);

    let log = Log::default();
    let mut service = delivery(&log, Ok(()), None, Err(SessionError::IoError));
    let input = SendInput { articles: vec![article("a")] };
    assert_eq!(service.send(input), Err(SessionError::IoError));
}

#[test]
fn commands_turn_failures_into_messages() {
    let log = Log::default();
    let mut service = PocketServiceImpl::new(FakePocket::new(&log));
    assert_eq!(command::is_login(&mut service), Ok(IsLoginOutput { is_login: true }));
    assert_eq!(command::login(&mut service).unwrap().auth_url, "http://consent");
    assert_eq!(command::logout(&mut service), Err("access_token not found".to_string()));
    assert!(command::list(&mut service).unwrap().articles.is_empty());

    let mut pocket = FakePocket::new(&log);
    pocket.list = Err(SessionError::NoLoginInProgress);
    let mut service = PocketServiceImpl::new(pocket);
    assert_eq!(command::list(&mut service).err(), Some("call start_login first".to_string()));

    let mut service = delivery(&log, Ok(()), Some("a"), Ok(()));
    assert_eq!(
        command::send(SendInput { articles: vec![article("a")] }, &mut service),
        Err("the data could not be decoded".to_string())
    );
    let mut service = delivery(&log, Ok(()), None, Ok(()));
    assert_eq!(
        command::send(SendInput { articles: vec![article("a")] }, &mut service),
        Ok(SendOutput {})
    );
}

#[test]
fn to_message_keeps_a_success() {
    assert_eq!(command::to_message(Ok::<u8, SessionError>(7)), Ok(7));
    assert_eq!(
        command::to_message(Err::<u8, SessionError>(SessionError::BridgeClosed)),
        Err("the response channel is closed".to_string())
    );
}

#[test]
fn the_state_of_a_starting_program() {
    assert_eq!(STATE_FILE_NAME, ".pocket-repository-state");
    let env = Env {
        pocket_platform_consumer_key: "key-1".to_string(),
        send_to_kindle_email: "device@kindle.com".to_string(),
        email_user: "me@example.com".to_string(),
        email_password: "secret".to_string(),
    };
    let state = AppState::new(env, "/data/.pocket-repository-state".to_string()).unwrap();
    assert!(!state.pocket.is_login());
    assert_eq!(state.pocket.phase(), LoginPhase::NotStarted);
    assert_eq!(state.pocket.state_file_path(), "/data/.pocket-repository-state");
    let mut pocket = state.pocket;
    assert_eq!(
        pocket.begin_login().params[0],
        ("consumer_key".to_string(), "key-1".to_string())
    );
    let mail = state
        .kindle
        .send(kindle::SendInput { articles: vec![] })
        .unwrap();
    assert_eq!((mail.from.as_str(), mail.to.as_str(), mail.password.as_str()), ("me@example.com", "device@kindle.com", "secret"));
}

#[test]
fn a_command_asks_its_service_once() {
    let log = Log::default();
    let mut service = PocketServiceImpl::new(FakePocket::new(&log));
    assert!(command::is_login(&mut service).is_ok());
    assert_eq!(entries(&log), vec!["load_state", "is_login"]);
    assert!(command::logout(&mut service).is_err());
    assert_eq!(entries(&log), vec!["load_state", "is_login", "logout"]);
    assert!(command::login(&mut service).is_ok());
    assert_eq!(entries(&log), vec!["load_state", "is_login", "logout", "start_login"]);
    assert!(command::list(&mut service).is_ok());
    assert_eq!(
        entries(&log),
        vec!["load_state", "is_login", "logout", "start_login", "list", "save_state"]
    );

    let log = Log::default();
    let mut service = delivery(&log, Ok(()), None, Ok(()));
    assert!(command::send(SendInput { articles: vec![article("a")] }, &mut service).is_ok());
    assert_eq!(entries(&log), vec!["mark_as_sent a", "convert a", "send readable a"]);
}
