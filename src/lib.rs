//! A chat-platform bot library: dispatching interactions to command modules,
//! rendering structured responses, and materialising typed records read from a
//! document store.
pub mod handler;
pub mod orm;
pub mod party;
pub mod politics;
pub mod response;

pub use handler::{
    Command, CommandFailure, Handler, HandlerContext, Interaction, ReadyAction, Registration, Route,
};
pub use orm::{CursorStep, Fetch, StoreFailure};
pub use party::{parse_id, Member, Party};
pub use politics::{Politics, Resolution};
pub use response::{Embed, Field, FieldValue, Footer, ResponseData};
