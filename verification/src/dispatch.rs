//! The dispatcher: from tokens to the requests that a store must serve, and
//! from its answers to the reply for the operator.
//!
//! The dispatcher performs no request itself. [`begin`] and [`resume`] say
//! what to ask next, so that any store can be driven by them;
//! [`handle_command`] drives the store in memory.

use vstd::prelude::*;
use crate::command::{
    command_of, describe, description_of, parse_command, Command, CommandError, CommandView,
};
use crate::database::DataBase;
use crate::model::{role_views, user_views, Role, RoleView, StoreError, User, UserView};
use crate::request::{Answer, AnswerView, Request, RequestView};
use crate::tables::Tables;
use crate::text::texts;

verus! {

/// The rows that a command brought back.
#[derive(Debug, PartialEq, Eq)]
pub enum Data {
    /// The command reads nothing.
    Nothing,
    /// The id under which a user was created.
    UserId(i32),
    /// Every user.
    Users(Vec<User>),
    /// Every role.
    Roles(Vec<Role>),
    /// One user, and the roles that the user holds.
    User(User, Vec<Role>),
    /// One role.
    Role(Role),
}

/// The result of a command that was carried out.
#[derive(Debug, PartialEq, Eq)]
pub struct Reply {
    /// The sentence that describes what was done.
    pub message: String,
    /// What was read, for the caller to show.
    pub data: Data,
}

/// What a [`Data`] holds.
pub enum DataView {
    Nothing,
    UserId(int),
    Users(Seq<UserView>),
    Roles(Seq<RoleView>),
    User(UserView, Seq<RoleView>),
    Role(RoleView),
}

/// What a [`Reply`] holds.
pub struct ReplyView {
    pub message: Seq<char>,
    pub data: DataView,
}

impl View for Data {
    type V = DataView;

    open spec fn view(&self) -> DataView {
        match self {
            Data::Nothing => DataView::Nothing,
            Data::UserId(id) => DataView::UserId(*id as int),
            Data::Users(users) => DataView::Users(user_views(users@)),
            Data::Roles(roles) => DataView::Roles(role_views(roles@)),
            Data::User(user, roles) => DataView::User(user@, role_views(roles@)),
            Data::Role(role) => DataView::Role(role@),
        }
    }
}

impl View for Reply {
    type V = ReplyView;

    open spec fn view(&self) -> ReplyView {
        ReplyView { message: self.message@, data: self.data@ }
    }
}

/// What the dispatcher waits for.
#[derive(Debug, PartialEq, Eq)]
pub enum Stage {
    /// The end of a write.
    Write,
    /// The id of the user that is being created.
    Create,
    /// Every user.
    Users,
    /// Every role.
    Roles,
    /// The role that was asked for.
    Role,
    /// The user that was asked for; the user's roles are asked for next.
    User,
    /// The roles of this user.
    UserRoles(User),
}

/// What a [`Stage`] holds.
pub enum StageView {
    Write,
    Create,
    Users,
    Roles,
    Role,
    User,
    UserRoles(UserView),
}

impl View for Stage {
    type V = StageView;

    open spec fn view(&self) -> StageView {
        match self {
            Stage::Write => StageView::Write,
            Stage::Create => StageView::Create,
            Stage::Users => StageView::Users,
            Stage::Roles => StageView::Roles,
            Stage::Role => StageView::Role,
            Stage::User => StageView::User,
            Stage::UserRoles(user) => StageView::UserRoles(user@),
        }
    }
}

/// A command under way: its description, and what it waits for.
#[derive(Debug, PartialEq, Eq)]
pub struct Session {
    pub message: String,
    pub stage: Stage,
}

/// What a [`Session`] holds.
pub struct SessionView {
    pub message: Seq<char>,
    pub stage: StageView,
}

impl View for Session {
    type V = SessionView;

    open spec fn view(&self) -> SessionView {
        SessionView { message: self.message@, stage: self.stage@ }
    }
}

/// What the caller does next.
#[derive(Debug, PartialEq, Eq)]
pub enum Step {
    /// Hand this request to the store, and its answer to [`resume`] together
    /// with this session.
    Ask(Session, Request),
    /// The command is over, with this result.
    Finish(Result<Reply, CommandError>),
}

/// What a [`Step`] holds.
pub enum StepView {
    Ask(SessionView, RequestView),
    Finish(Result<ReplyView, CommandError>),
}

/// What a result of a command holds.
pub open spec fn result_view(result: Result<Reply, CommandError>) -> Result<
    ReplyView,
    CommandError,
> {
    match result {
        Ok(reply) => Ok(reply@),
        Err(e) => Err(e),
    }
}

impl View for Step {
    type V = StepView;

    open spec fn view(&self) -> StepView {
        match self {
            Step::Ask(session, request) => StepView::Ask(session@, request@),
            Step::Finish(result) => StepView::Finish(result_view(*result)),
        }
    }
}

/// The first request that a command makes, and what the dispatcher then
/// waits for. Every command makes one request, but `list user`, which reads
/// the user and then the user's roles.
pub open spec fn opening(command: CommandView) -> (StageView, RequestView) {
    match command {
        CommandView::CreateUser { name } => (StageView::Create, RequestView::CreateUser { name }),
        CommandView::DeleteUser { id } => (StageView::Write, RequestView::DeleteUser { id }),
        CommandView::UpdateUser { id, field, value } => (
            StageView::Write,
            RequestView::UpdateUser { id, field, value },
        ),
        CommandView::AssignRole { slug, user_id } => (
            StageView::Write,
            RequestView::AssignRole { user_id, slug },
        ),
        CommandView::UnassignRole { slug, user_id } => (
            StageView::Write,
            RequestView::UnassignRole { user_id, slug },
        ),
        CommandView::ListRoles => (StageView::Roles, RequestView::ListRoles),
        CommandView::ListRole { slug } => (StageView::Role, RequestView::GetRole { slug }),
        CommandView::ListUsers => (StageView::Users, RequestView::ListUsers),
        CommandView::ListUser { id } => (StageView::User, RequestView::GetUser { id }),
        CommandView::CreateRole { slug, name, permissions } => (
            StageView::Write,
            RequestView::CreateRole { slug, name, permissions },
        ),
        CommandView::DeleteRole { slug } => (StageView::Write, RequestView::DeleteRole { slug }),
        CommandView::UpdateRole { slug, field, value } => (
            StageView::Write,
            RequestView::UpdateRole { slug, field, value },
        ),
    }
}

/// The step that a token sequence begins with: the first request of the
/// command that it denotes, or the end, where it denotes none.
pub open spec fn first_step(t: Seq<Seq<char>>) -> StepView {
    match command_of(t) {
        Err(e) => StepView::Finish(Err(e)),
        Ok(command) => StepView::Ask(
            SessionView { message: description_of(t).unwrap(), stage: opening(command).0 },
            opening(command).1,
        ),
    }
}

/// The step that follows an answer of the store.
///
/// A failure of the store ends the command with that failure. A lookup by
/// key takes the first row and fails with [`StoreError::NotFound`] where
/// there is none. An answer of another kind than the session waits for ends
/// the command with [`StoreError::Connection`].
pub open spec fn next_step(session: SessionView, answer: AnswerView) -> StepView {
    let message = session.message;
    match (session.stage, answer) {
        (_, AnswerView::Failed(e)) => StepView::Finish(Err(CommandError::Store(e))),
        (StageView::Write, AnswerView::Done) => StepView::Finish(
            Ok(ReplyView { message, data: DataView::Nothing }),
        ),
        (StageView::Create, AnswerView::Created(id)) => StepView::Finish(
            Ok(ReplyView { message, data: DataView::UserId(id) }),
        ),
        (StageView::Users, AnswerView::Users(rows)) => StepView::Finish(
            Ok(ReplyView { message, data: DataView::Users(rows) }),
        ),
        (StageView::Roles, AnswerView::Roles(rows)) => StepView::Finish(
            Ok(ReplyView { message, data: DataView::Roles(rows) }),
        ),
        (StageView::Role, AnswerView::Roles(rows)) => if rows.len() == 0 {
            StepView::Finish(Err(CommandError::Store(StoreError::NotFound)))
        } else {
            StepView::Finish(Ok(ReplyView { message, data: DataView::Role(rows[0]) }))
        },
        (StageView::User, AnswerView::Users(rows)) => if rows.len() == 0 {
            StepView::Finish(Err(CommandError::Store(StoreError::NotFound)))
        } else {
            StepView::Ask(
                SessionView { message, stage: StageView::UserRoles(rows[0]) },
                RequestView::GetUserRoles { user_id: rows[0].id },
            )
        },
        (StageView::UserRoles(user), AnswerView::Roles(rows)) => StepView::Finish(
            Ok(ReplyView { message, data: DataView::User(user, rows) }),
        ),
        _ => StepView::Finish(Err(CommandError::Store(StoreError::Connection))),
    }
}

/// Reads a token sequence and says what to ask of the store first.
pub fn begin(tokens: &Vec<&str>) -> (step: Step)
    ensures
        step@ == first_step(texts(tokens@)),
{
    let command = match parse_command(tokens) {
        Ok(command) => command,
        Err(e) => {
            return Step::Finish(Err(e));
        },
    };
    let message = match describe(tokens) {
        Some(message) => message,
        None => {
            return Step::Finish(Err(CommandError::Unrecognized));
        },
    };
    match command {
        Command::CreateUser { name } => Step::Ask(
            Session { message, stage: Stage::Create },
            Request::CreateUser { name },
        ),
        Command::DeleteUser { id } => Step::Ask(
            Session { message, stage: Stage::Write },
            Request::DeleteUser { id },
        ),
        Command::UpdateUser { id, field, value } => Step::Ask(
            Session { message, stage: Stage::Write },
            Request::UpdateUser { id, field, value },
        ),
        Command::AssignRole { slug, user_id } => Step::Ask(
            Session { message, stage: Stage::Write },
            Request::AssignRole { user_id, slug },
        ),
        Command::UnassignRole { slug, user_id } => Step::Ask(
            Session { message, stage: Stage::Write },
            Request::UnassignRole { user_id, slug },
        ),
        Command::ListRoles => Step::Ask(
            Session { message, stage: Stage::Roles },
            Request::ListRoles,
        ),
        Command::ListRole { slug } => Step::Ask(
            Session { message, stage: Stage::Role },
            Request::GetRole { slug },
        ),
        Command::ListUsers => Step::Ask(
            Session { message, stage: Stage::Users },
            Request::ListUsers,
        ),
        Command::ListUser { id } => Step::Ask(
            Session { message, stage: Stage::User },
            Request::GetUser { id },
        ),
        Command::CreateRole { slug, name, permissions } => Step::Ask(
            Session { message, stage: Stage::Write },
            Request::CreateRole { slug, name, permissions },
        ),
        Command::DeleteRole { slug } => Step::Ask(
            Session { message, stage: Stage::Write },
            Request::DeleteRole { slug },
        ),
        Command::UpdateRole { slug, field, value } => Step::Ask(
            Session { message, stage: Stage::Write },
            Request::UpdateRole { slug, field, value },
        ),
    }
}

/// Takes the answer of the store to the request that was asked last, and
/// says what comes next.
pub fn resume(session: Session, answer: Answer) -> (step: Step)
    ensures
        step@ == next_step(session@, answer@),
{
    let Session { message, stage } = session;
    match (stage, answer) {
        (_, Answer::Failed(e)) => Step::Finish(Err(CommandError::Store(e))),
        (Stage::Write, Answer::Done) => Step::Finish(Ok(Reply { message, data: Data::Nothing })),
        (Stage::Create, Answer::Created(id)) => Step::Finish(
            Ok(Reply { message, data: Data::UserId(id) }),
        ),
        (Stage::Users, Answer::Users(rows)) => Step::Finish(
            Ok(Reply { message, data: Data::Users(rows) }),
        ),
        (Stage::Roles, Answer::Roles(rows)) => Step::Finish(
            Ok(Reply { message, data: Data::Roles(rows) }),
        ),
        (Stage::Role, Answer::Roles(mut rows)) => {
            if rows.len() == 0 {
                Step::Finish(Err(CommandError::Store(StoreError::NotFound)))
            } else {
                let role = rows.remove(0);
                Step::Finish(Ok(Reply { message, data: Data::Role(role) }))
            }
        },
        (Stage::User, Answer::Users(mut rows)) => {
            if rows.len() == 0 {
                Step::Finish(Err(CommandError::Store(StoreError::NotFound)))
            } else {
                let user = rows.remove(0);
                let user_id = user.id;
                Step::Ask(
                    Session { message, stage: Stage::UserRoles(user) },
                    Request::GetUserRoles { user_id },
                )
            }
        },
        (Stage::UserRoles(user), Answer::Roles(rows)) => Step::Finish(
            Ok(Reply { message, data: Data::User(user, rows) }),
        ),
        _ => Step::Finish(Err(CommandError::Store(StoreError::Connection))),
    }
}

/// How many requests a step may still lead to.
pub open spec fn rank(step: StepView) -> nat {
    match step {
        StepView::Finish(_) => 0,
        StepView::Ask(session, _) => match session.stage {
            StageView::User => 2,
            _ => 1,
        },
    }
}

/// Each answer brings a command nearer to its end.
pub proof fn lemma_next_step_ranks_lower(
    session: SessionView,
    request: RequestView,
    answer: AnswerView,
)
    ensures
        rank(next_step(session, answer)) < rank(StepView::Ask(session, request)),
{
}

/// Where a step leads when the store held in `t` serves every request: the
/// store afterwards and the result of the command.
pub open spec fn drive(t: Tables, step: StepView) -> (Tables, Result<ReplyView, CommandError>)
    decreases rank(step),
{
    match step {
        StepView::Finish(result) => (t, result),
        StepView::Ask(session, request) => {
            proof {
                lemma_next_step_ranks_lower(session, request, t.serve(request).1);
            }
            drive(t.serve(request).0, next_step(session, t.serve(request).1))
        },
    }
}

/// The result of a write, described by `message`.
pub open spec fn written(
    t: Tables,
    attempt: Result<Tables, StoreError>,
    message: Seq<char>,
) -> (Tables, Result<ReplyView, CommandError>) {
    match attempt {
        Ok(next) => (next, Ok(ReplyView { message, data: DataView::Nothing })),
        Err(e) => (t, Err(CommandError::Store(e))),
    }
}

/// The result of a read, described by `message`.
pub open spec fn read(t: Tables, message: Seq<char>, data: DataView) -> (
    Tables,
    Result<ReplyView, CommandError>,
) {
    (t, Ok(ReplyView { message, data }))
}

/// What a command does to a store, and what comes back. `message` is the
/// description of the command.
///
/// A command that the store refuses changes nothing and fails with the
/// error of the store. Every other command succeeds with its description
/// and with the rows that it read.
pub open spec fn perform(t: Tables, command: CommandView, message: Seq<char>) -> (
    Tables,
    Result<ReplyView, CommandError>,
) {
    match command {
        CommandView::CreateUser { name } => match t.create_user(name) {
            Ok(next) => (next, Ok(ReplyView { message, data: DataView::UserId(next.issued) })),
            Err(e) => (t, Err(CommandError::Store(e))),
        },
        CommandView::DeleteUser { id } => written(t, t.delete_user(id), message),
        CommandView::UpdateUser { id, field, value } => written(
            t,
            Ok(t.update_user(id, field, value)),
            message,
        ),
        CommandView::AssignRole { slug, user_id } => written(
            t,
            t.assign_role(user_id, slug),
            message,
        ),
        CommandView::UnassignRole { slug, user_id } => written(
            t,
            Ok(t.unassign_role(user_id, slug)),
            message,
        ),
        CommandView::ListRoles => read(t, message, DataView::Roles(t.roles)),
        CommandView::ListRole { slug } => match t.get_role(slug) {
            Ok(role) => read(t, message, DataView::Role(role)),
            Err(e) => (t, Err(CommandError::Store(e))),
        },
        CommandView::ListUsers => read(t, message, DataView::Users(t.users)),
        CommandView::ListUser { id } => match t.get_user(id) {
            Ok(user) => read(t, message, DataView::User(user, t.get_user_roles(id))),
            Err(e) => (t, Err(CommandError::Store(e))),
        },
        CommandView::CreateRole { slug, name, permissions } => written(
            t,
            t.create_role(slug, name, permissions),
            message,
        ),
        CommandView::DeleteRole { slug } => written(t, t.delete_role(slug), message),
        CommandView::UpdateRole { slug, field, value } => written(
            t,
            Ok(t.update_role(slug, field, value)),
            message,
        ),
    }
}

/// What a token sequence does to a store, and what comes back. Tokens that
/// denote no command change nothing and fail as [`command_of`] says.
pub open spec fn outcome(t: Tables, tokens: Seq<Seq<char>>) -> (
    Tables,
    Result<ReplyView, CommandError>,
) {
    match command_of(tokens) {
        Err(e) => (t, Err(e)),
        Ok(command) => perform(t, command, description_of(tokens).unwrap()),
    }
}

/// Driving the store in memory through the steps of a command does what
/// the command says.
proof fn lemma_drive_performs(t: Tables, command: CommandView, message: Seq<char>)
    ensures
        drive(
            t,
            StepView::Ask(
                SessionView { message, stage: opening(command).0 },
                opening(command).1,
            ),
        ) == perform(t, command, message),
{
    let session = SessionView { message, stage: opening(command).0 };
    let request = opening(command).1;
    let served = t.serve(request);
    let second = next_step(session, served.1);
    assert(drive(t, StepView::Ask(session, request)) == drive(served.0, second));
    match second {
        StepView::Finish(result) => {
            assert(drive(served.0, second) == (served.0, result));
        },
        StepView::Ask(after, again) => {
            let id = command->ListUser_id;
            assert(command is ListUser);
            assert(served.0 == t);
            let user = t.get_user(id)->Ok_0;
            assert(user.id == id);
            assert(again == RequestView::GetUserRoles { user_id: id });
            let last = next_step(after, t.serve(again).1);
            assert(drive(t, second) == drive(t, last));
            assert(last is Finish);
            assert(drive(t, last) == (t, last->Finish_0));
        },
    }
}

/// Driving the store in memory through the steps of a token sequence gives
/// the outcome of the sequence.
pub proof fn law_drive_gives_outcome(t: Tables, tokens: Seq<Seq<char>>)
    ensures
        drive(t, first_step(tokens)) == outcome(t, tokens),
{
    match command_of(tokens) {
        Err(e) => {},
        Ok(command) => {
            lemma_drive_performs(t, command, description_of(tokens).unwrap());
        },
    }
}

/// Carries out the command that the tokens denote on the store in memory.
pub fn handle_command(db: &mut DataBase, tokens: Vec<&str>) -> (result: Result<
    Reply,
    CommandError,
>)
    ensures
        final(db)@.wf(),
        (final(db)@, result_view(result)) == outcome(old(db)@, texts(tokens@)),
{
    let mut step = begin(&tokens);
    proof {
        use_type_invariant(&*db);
        law_drive_gives_outcome(db@, texts(tokens@));
    }
    loop
        invariant
            db@.wf(),
            drive(db@, step@) == outcome(old(db)@, texts(tokens@)),
        decreases rank(step@),
    {
        match step {
            Step::Finish(result) => {
                return result;
            },
            Step::Ask(session, request) => {
                proof {
                    lemma_next_step_ranks_lower(session@, request@, db@.serve(request@).1);
                }
                let answer = db.serve(&request);
                step = resume(session, answer);
            },
        }
    }
}

} // verus!
