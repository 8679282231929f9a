//! The event handler: command registration when the connection is ready, and
//! the dispatch of interactions to command modules with the rendering of their
//! outcome.
use vstd::prelude::*;
use crate::orm::StoreFailure;
use crate::response::{backticked, contains, in_backticks, is_error_response, shows_same, ResponseData};

verus! {

/// Declares mongodb's `Client`, the document-store connection that the handler
/// carries through to the command modules without looking inside it.
#[verifier::external_type_specification]
#[verifier::external_body]
pub struct ExClient(mongodb::Client);

/// Description of the response to a command that has no implementation.
pub const NOT_IMPLEMENTED: &'static str = "`This command is not yet implemented.`";

/// Exit code of the process when command registration fails.
pub const REGISTRATION_FAILURE_EXIT_CODE: i32 = 1;

/// Name of the command that reports the parties.
pub const PARTIES_COMMAND: &'static str = "parties";

/// The commands the bot implements.
#[derive(Debug, Clone, Copy, PartialEq, Eq)]
pub enum Command {
    Parties,
}

/// The command called `name`, if the bot implements one.
pub open spec fn command_named(name: Seq<char>) -> Option<Command> {
    if name == PARTIES_COMMAND@ {
        Some(Command::Parties)
    } else {
        None
    }
}

impl Command {
    /// The command called `name`, if the bot implements one.
    pub fn from_name(name: &str) -> (r: Option<Command>)
        ensures
            r == command_named(name@),
    {
        if name.to_owned() == PARTIES_COMMAND.to_owned() {
            Some(Command::Parties)
        } else {
            None
        }
    }

    /// The name users invoke the command by.
    pub fn name(&self) -> (r: &'static str)
        ensures
            command_named(r@) == Some(*self),
    {
        match self {
            Command::Parties => PARTIES_COMMAND,
        }
    }

    /// Every command the bot implements, in the order they are registered.
    pub fn table() -> (r: Vec<Command>)
        ensures
            r@ == seq![Command::Parties],
    {
        vec![Command::Parties]
    }
}

/// An inbound interaction.
pub enum Interaction {
    /// A user invoked the application command called `name`.
    ApplicationCommand { name: String },
    /// Any other kind of interaction.
    Other,
}

/// What becomes of an interaction.
#[derive(Debug, Clone, Copy, PartialEq, Eq)]
pub enum Route {
    /// It gets no response.
    Ignore,
    /// The command module of the command is run.
    Run(Command),
    /// It is answered that the command is not implemented.
    NotImplemented,
}

/// What becomes of the interaction `i`.
pub open spec fn route_of(i: Interaction) -> Route {
    match i {
        Interaction::ApplicationCommand { name } => match command_named(name@) {
            Some(c) => Route::Run(c),
            None => Route::NotImplemented,
        },
        Interaction::Other => Route::Ignore,
    }
}

/// The failure of a command module.
#[derive(Debug, Clone, PartialEq, Eq)]
pub struct CommandFailure {
    pub message: String,
}

impl CommandFailure {
    /// The failure of a command whose store access failed.
    pub fn from_store(e: StoreFailure) -> (r: CommandFailure)
        ensures
            r.message == e.message,
    {
        CommandFailure { message: e.message }
    }
}

/// `r` answers an application command whose module gave `outcome` (`None`
/// where the command has no implementation), stamped with `timestamp`.
pub open spec fn answers(
    r: ResponseData,
    outcome: Option<Result<ResponseData, CommandFailure>>,
    timestamp: Seq<char>,
) -> bool {
    match outcome {
        Some(Ok(p)) => r == p,
        Some(Err(f)) => is_error_response(r, in_backticks(f.message@), timestamp),
        None => is_error_response(r, NOT_IMPLEMENTED@, timestamp),
    }
}

/// The time stamp an answer carries, where it carries one.
pub open spec fn stamp_of(r: ResponseData) -> Seq<char> {
    match r.embed.timestamp {
        Some(t) => t@,
        None => Seq::empty(),
    }
}

/// A command registration made when the connection is ready.
#[derive(Debug, Clone, Copy, PartialEq, Eq)]
pub enum Registration {
    /// The commands of every guild.
    Global,
    /// The commands of the development guild with this identifier.
    DevelopmentGuild(u64),
}

/// What the handler asks for next while it registers its commands.
#[derive(Debug, Clone, Copy, PartialEq, Eq)]
pub enum ReadyAction {
    /// Make this registration, then report whether it succeeded.
    Register(Registration),
    /// Terminate the process with this exit code.
    Exit(i32),
    /// Registration is complete.
    Done,
}

/// `s` is an RFC 3339 time stamp in UTC as chrono writes one: at least a
/// four-digit year, month, day, hours, minutes and seconds, and the offset
/// `+00:00` at its end.
pub open spec fn is_utc_stamp(s: Seq<char>) -> bool {
    &&& s.len() >= 25
    &&& s.subrange(s.len() - 6, s.len() as int) == "+00:00"@
}

/// Relies on chrono's `From<SystemTime> for DateTime<Utc>` and
/// `DateTime::to_rfc3339`: the system time, written as an RFC 3339 time stamp
/// with the UTC offset. The conversion also takes a clock before 1970.
#[verifier::external_body]
fn now_rfc3339() -> (r: String)
    ensures
        is_utc_stamp(r@),
{
    chrono::DateTime::<chrono::Utc>::from(std::time::SystemTime::now()).to_rfc3339()
}

/// The data handed to all interaction handlers.
pub struct HandlerContext {
    pub development_guild_id: u64,
    pub mongo_client: mongodb::Client,
}

/// Core event handler of the bot.
pub struct Handler {
    context: HandlerContext,
}

impl Handler {
    /// Creates a new `Handler` with the context passed.
    pub fn with_context(context: HandlerContext) -> (r: Handler)
        ensures
            r.development_guild() == context.development_guild_id,
            r.client() == context.mongo_client,
    {
        Handler { context }
    }

    /// The identifier of the development guild.
    pub closed spec fn development_guild(&self) -> u64 {
        self.context.development_guild_id
    }

    /// The document-store client.
    pub closed spec fn client(&self) -> mongodb::Client {
        self.context.mongo_client
    }

    /// The context the handler was made with.
    pub fn context(&self) -> (r: &HandlerContext)
        ensures
            r.development_guild_id == self.development_guild(),
            r.mongo_client == self.client(),
    {
        &self.context
    }

    /// The first step once the connection is ready: the global registration.
    pub fn ready(&self) -> (r: ReadyAction)
        ensures
            r == ReadyAction::Register(Registration::Global),
    {
        ReadyAction::Register(Registration::Global)
    }

    /// The step after the registration `which`: a failed one terminates the
    /// process with a non-zero code, the global one is followed by the one of
    /// the development guild, and that one completes registration.
    pub fn registered(&self, which: Registration, succeeded: bool) -> (r: ReadyAction)
        ensures
            !succeeded ==> r == ReadyAction::Exit(REGISTRATION_FAILURE_EXIT_CODE),
            succeeded && which is Global ==> r == ReadyAction::Register(
                Registration::DevelopmentGuild(self.development_guild()),
            ),
            succeeded && which is DevelopmentGuild ==> r == ReadyAction::Done,
            r matches ReadyAction::Exit(code) ==> code != 0,
    {
        if !succeeded {
            ReadyAction::Exit(REGISTRATION_FAILURE_EXIT_CODE)
        } else {
            match which {
                Registration::Global => ReadyAction::Register(
                    Registration::DevelopmentGuild(self.context.development_guild_id),
                ),
                Registration::DevelopmentGuild(_) => ReadyAction::Done,
            }
        }
    }

    /// Routes an interaction: application commands go to their module, or are
    /// answered as not implemented; other interactions are ignored.
    pub fn interaction_create(&self, interaction: &Interaction) -> (r: Route)
        ensures
            r == route_of(*interaction),
    {
        match interaction {
            Interaction::ApplicationCommand { name } => match Command::from_name(name.as_str()) {
                Some(c) => Route::Run(c),
                None => Route::NotImplemented,
            },
            Interaction::Other => Route::Ignore,
        }
    }

    /// The answer to an application command whose module gave `outcome`
    /// (`None` where the command has no implementation), stamped with
    /// `timestamp`: the module's payload as it is, or an error embed.
    pub fn respond_at(
        &self,
        outcome: Option<Result<ResponseData, CommandFailure>>,
        timestamp: String,
    ) -> (r: ResponseData)
        ensures
            answers(r, outcome, timestamp@),
    {
        match outcome {
            Some(Ok(p)) => p,
            Some(Err(f)) => ResponseData::error(backticked(f.message.as_str()), timestamp),
            None => ResponseData::error(NOT_IMPLEMENTED.to_owned(), timestamp),
        }
    }

    /// The answer to an application command whose module gave `outcome`
    /// (`None` where the command has no implementation), stamped with the
    /// current time.
    pub fn on_application_command(
        &self,
        outcome: Option<Result<ResponseData, CommandFailure>>,
    ) -> (r: ResponseData)
        ensures
            answers(r, outcome, stamp_of(r)),
            !(outcome matches Some(Ok(_))) ==> is_utc_stamp(stamp_of(r)),
    {
        let now = now_rfc3339();
        self.respond_at(outcome, now)
    }
}

/// An application command with no implementation is never run: it is answered
/// with an error whose description says that it is not implemented.
pub proof fn lemma_unknown_command_answered(i: Interaction, r: ResponseData, timestamp: Seq<char>)
    requires
        i matches Interaction::ApplicationCommand { name } && command_named(name@) is None,
        answers(r, None, timestamp),
    ensures
        route_of(i) == Route::NotImplemented,
        r.embed.color == Some(crate::response::ERROR_COLOR),
        contains(r.embed.description->Some_0@, "not yet implemented"@),
{
    reveal_strlit("`This command is not yet implemented.`");
    reveal_strlit("not yet implemented");
    let d = r.embed.description->Some_0@;
    let t = "not yet implemented"@;
    let k: int = 17;
    assert(d.subrange(k, k + t.len()) =~= t);
}

/// A command that fails is answered in the error colour, with the failure's
/// message in the description.
pub proof fn lemma_failure_answered(f: CommandFailure, r: ResponseData, timestamp: Seq<char>)
    requires
        answers(r, Some(Err(f)), timestamp),
    ensures
        r.embed.color == Some(crate::response::ERROR_COLOR),
        contains(r.embed.description->Some_0@, f.message@),
{
    let d = r.embed.description->Some_0@;
    assert(d.subrange(1, 1 + f.message@.len() as int) =~= f.message@);
}

/// The answer to an interaction depends on that interaction alone: any two
/// answers to the same outcome, stamped alike, show the same thing, whatever
/// else is being answered meanwhile.
pub proof fn lemma_answer_determined(
    r1: ResponseData,
    r2: ResponseData,
    outcome: Option<Result<ResponseData, CommandFailure>>,
    timestamp: Seq<char>,
)
    requires
        answers(r1, outcome, timestamp),
        answers(r2, outcome, timestamp),
    ensures
        shows_same(r1, r2),
{
    if !(outcome matches Some(Ok(_))) {
        assert(r1.embed.fields@ =~= r2.embed.fields@);
    }
}

} // verus!
