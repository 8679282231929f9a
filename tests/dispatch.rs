use mongodb::options::ClientOptions;
use republic_of_discord::handler::{NOT_IMPLEMENTED, REGISTRATION_FAILURE_EXIT_CODE};
use republic_of_discord::response::{ERROR_COLOR, FOOTER_ICON_URL, FOOTER_TEXT};
use republic_of_discord::{
    Command, CommandFailure, Embed, Field, FieldValue, Handler, HandlerContext, Interaction,
    ReadyAction, Registration, ResponseData, Route,
};

fn with_handler(guild: u64, f: impl FnOnce(&Handler)) {
    let rt = tokio::runtime::Runtime::new().unwrap();
    let _guard = rt.enter();
    let mongo_client = mongodb::Client::with_options(ClientOptions::default()).unwrap();
    let handler = Handler::with_context(HandlerContext { development_guild_id: guild, mongo_client });
    f(&handler);
}

fn command(name: &str) -> Interaction {
    Interaction::ApplicationCommand { name: name.to_string() }
}

fn payload(name: &str, n: u64) -> ResponseData {
    ResponseData {
        embed: Embed::with_fields(vec![Field {
            name: name.to_string(),
            value: FieldValue::Number(n),
            inline: true,
        }]),
    }
}

#[test]
fn command_table_lookup() {
    assert_eq!(Command::from_name("parties"), Some(Command::Parties));
    assert_eq!(Command::from_name("Parties"), None);
    assert_eq!(Command::from_name("foo"), None);
    assert_eq!(Command::Parties.name(), "parties");
    assert_eq!(Command::table(), vec![Command::Parties]);
}

#[test]
fn unknown_command_is_not_implemented() {
    with_handler(5, |h| {
        assert_eq!(h.interaction_create(&command("foo")), Route::NotImplemented);
        let r = h.respond_at(None, "2021-08-01T12:00:00+00:00".to_string());
        let d = r.embed.description.clone().unwrap();
        assert_eq!(d, NOT_IMPLEMENTED);
        assert!(d.contains("not yet implemented"));
        assert_eq!(r.embed.color, Some(ERROR_COLOR));
        assert_eq!(r.embed.title.as_deref(), Some("An error has occurred,"));
        let footer = r.embed.footer.unwrap();
        assert_eq!(footer.text, FOOTER_TEXT);
        assert_eq!(footer.icon_url, FOOTER_ICON_URL);
        assert_eq!(r.embed.timestamp.as_deref(), Some("2021-08-01T12:00:00+00:00"));
    });
}

#[test]
fn known_command_is_run() {
    with_handler(5, |h| {
        assert_eq!(h.interaction_create(&command("parties")), Route::Run(Command::Parties));
    });
}

#[test]
fn other_interactions_are_ignored() {
    with_handler(5, |h| {
        assert_eq!(h.interaction_create(&Interaction::Other), Route::Ignore);
    });
}

#[test]
fn failure_is_rendered_as_error() {
    with_handler(5, |h| {
        let f = CommandFailure { message: "server selection timeout".to_string() };
        let r = h.respond_at(Some(Err(f)), "2021-08-01T12:00:00+00:00".to_string());
        assert_eq!(r.embed.color, Some(0xff5036));
        assert_eq!(r.embed.description.as_deref(), Some("`server selection timeout`"));
        assert!(r.embed.fields.is_empty());
    });
}

#[test]
fn payload_is_sent_verbatim() {
    with_handler(5, |h| {
        let p = payload("Whigs", 12);
        let r = h.respond_at(Some(Ok(p.clone())), "2021-08-01T12:00:00+00:00".to_string());
        assert_eq!(r, p);
    });
}

#[test]
fn current_time_stamps_error_answers() {
    with_handler(5, |h| {
        let r = h.on_application_command(None);
        let stamp = r.embed.timestamp.unwrap();
        assert!(stamp.len() >= 25);
        assert!(stamp.ends_with("+00:00"));
        assert!(chrono::DateTime::parse_from_rfc3339(&stamp).is_ok());
        assert_eq!(r.embed.description.as_deref(), Some(NOT_IMPLEMENTED));
    });
}

#[test]
fn registration_sequence() {
    with_handler(77, |h| {
        assert_eq!(h.context().development_guild_id, 77);
        assert_eq!(h.ready(), ReadyAction::Register(Registration::Global));
        assert_eq!(
            h.registered(Registration::Global, true),
            ReadyAction::Register(Registration::DevelopmentGuild(77))
        );
        assert_eq!(h.registered(Registration::DevelopmentGuild(77), true), ReadyAction::Done);
    });
}

#[test]
fn registration_failure_exits_non_zero() {
    with_handler(77, |h| {
        assert_eq!(REGISTRATION_FAILURE_EXIT_CODE, 1);
        assert_eq!(h.registered(Registration::Global, false), ReadyAction::Exit(1));
        assert_eq!(h.registered(Registration::DevelopmentGuild(77), false), ReadyAction::Exit(1));
    });
}

#[test]
fn concurrent_answers_stay_apart() {
    with_handler(5, |h| {
        let a = h.respond_at(Some(Ok(payload("Tories", 4))), "2021-08-01T12:00:00+00:00".to_string());
        let f = CommandFailure { message: "cursor killed".to_string() };
        let b = h.respond_at(Some(Err(f)), "2021-08-01T12:00:01+00:00".to_string());
        assert_eq!(a, payload("Tories", 4));
        assert_eq!(b.embed.description.as_deref(), Some("`cursor killed`"));
        assert!(b.embed.fields.is_empty());
        assert!(!a.embed.fields.iter().any(|x| x.name.contains("cursor")));
    });
}

#[test]
fn backticks_wrap_message() {
    assert_eq!(republic_of_discord::response::backticked("boom"), "`boom`");
    assert_eq!(republic_of_discord::response::backticked(""), "``");
}
