//! A session with the assistant: its identifier and the addresses derived
//! from it.

use vstd::prelude::*;
use vstd::string::*;
use crate::dict::Dict;
use crate::wa::context::{ContextBuilder, ContextParts};
use crate::wa::input::{InputMessage, InputOptions, UserInput, UserInputBuilder};
use crate::wa::json::UnknownType;

verus! {

/// One conversation with the assistant.
#[derive(Debug)]
pub struct WASession {
    api_key: String,
    pub session_id: String,
    session_url: String,
    delete_url: String,
    send_url: String,
}

/// View of a [`WASession`].
pub ghost struct SessionView {
    pub api_key: Seq<char>,
    pub session_id: Seq<char>,
    pub session_url: Seq<char>,
    pub delete_url: Seq<char>,
    pub send_url: Seq<char>,
}

/// The address at which sessions of an assistant are created.
pub open spec fn session_url(endpoint: Seq<char>, assistant: Seq<char>, version: Seq<char>) -> Seq<
    char,
> {
    endpoint + "/v2/assistants/"@ + assistant + "/sessions?version="@ + version
}

/// The address at which a session is deleted.
pub open spec fn delete_url(
    endpoint: Seq<char>,
    assistant: Seq<char>,
    session: Seq<char>,
    version: Seq<char>,
) -> Seq<char> {
    endpoint + "/v2/assistants/"@ + assistant + "/sessions/"@ + session + "version="@ + version
}

/// The address to which the messages of a session are sent.
pub open spec fn send_url(
    endpoint: Seq<char>,
    assistant: Seq<char>,
    session: Seq<char>,
    version: Seq<char>,
) -> Seq<char> {
    endpoint + "/v2/assistants/"@ + assistant + "/sessions/"@ + session + "/message?version="@
        + version
}

/// The member of the service's answer that names a new session.
pub open spec fn session_id_key() -> Seq<char> {
    "session_id"@
}

/// The session with the identifier `session`, for the given assistant.
pub open spec fn attached(
    endpoint: Seq<char>,
    api_key: Seq<char>,
    assistant: Seq<char>,
    version: Seq<char>,
    session: Seq<char>,
) -> SessionView {
    SessionView {
        api_key,
        session_id: session,
        session_url: session_url(endpoint, assistant, version),
        delete_url: delete_url(endpoint, assistant, session, version),
        send_url: send_url(endpoint, assistant, session, version),
    }
}

/// The options with which a plain text message is sent.
pub open spec fn default_options() -> InputOptions {
    InputOptions {
        debug: false,
        restart: false,
        alternate_intents: true,
        return_context: true,
        export: false,
    }
}

/// The message part of an input that holds a text with the default options
/// and nothing else.
pub open spec fn text_message<'a>(input: &'a str) -> InputMessage<'a> {
    InputMessage {
        message_type: None,
        text: Some(input),
        options: Some(default_options()),
        intents: None,
        entities: None,
        suggestion_id: None,
    }
}

impl View for WASession {
    type V = SessionView;

    closed spec fn view(&self) -> SessionView {
        SessionView {
            api_key: self.api_key@,
            session_id: self.session_id@,
            session_url: self.session_url@,
            delete_url: self.delete_url@,
            send_url: self.send_url@,
        }
    }
}

impl WASession {
    /// The address to post to for a new session of the assistant.
    pub fn creation_url(endpoint_url: &str, assistant_id: &str, version: &str) -> (url: String)
        ensures
            url@ == session_url(endpoint_url@, assistant_id@, version@),
    {
        let mut url = String::from_str(endpoint_url);
        url.append("/v2/assistants/");
        url.append(assistant_id);
        url.append("/sessions?version=");
        url.append(version);
        url
    }

    /// The session that the service's answer to a creation request opens,
    /// if the answer names one.
    ///
    /// The answer is a JSON object of strings; the new session's identifier
    /// is its member `session_id`. Without that member there is no session.
    pub fn new(
        endpoint_url: String,
        api_key: String,
        assistant_id: String,
        version: String,
        answer: &Dict<String>,
    ) -> (r: Option<WASession>)
        ensures
            r is Some == answer@.dom().contains(session_id_key()),
            r is Some ==> r->0@ == attached(
                endpoint_url@,
                api_key@,
                assistant_id@,
                version@,
                answer@[session_id_key()]@,
            ),
    {
        match answer.get("session_id") {
            Some(id) => Some(
                WASession::re_attach(endpoint_url, api_key, assistant_id, version, id.clone()),
            ),
            None => None,
        }
    }

    /// The session with the identifier `session_id`, taken on trust: nothing
    /// is asked of the service, and an identifier that it does not know
    /// shows only when a message is sent.
    pub fn re_attach(
        endpoint_url: String,
        api_key: String,
        assistant_id: String,
        version: String,
        session_id: String,
    ) -> (session: WASession)
        ensures
            session@ == attached(
                endpoint_url@,
                api_key@,
                assistant_id@,
                version@,
                session_id@,
            ),
    {
        let session_url = WASession::creation_url(
            endpoint_url.as_str(),
            assistant_id.as_str(),
            version.as_str(),
        );
        let mut delete_url = String::from_str(endpoint_url.as_str());
        delete_url.append("/v2/assistants/");
        delete_url.append(assistant_id.as_str());
        delete_url.append("/sessions/");
        delete_url.append(session_id.as_str());
        delete_url.append("version=");
        delete_url.append(version.as_str());
        let mut send_url = String::from_str(endpoint_url.as_str());
        send_url.append("/v2/assistants/");
        send_url.append(assistant_id.as_str());
        send_url.append("/sessions/");
        send_url.append(session_id.as_str());
        send_url.append("/message?version=");
        send_url.append(version.as_str());
        WASession { api_key, session_id, session_url, send_url, delete_url }
    }

    /// Takes over the session that the service's answer to a creation
    /// request names, if it names one, and says whether it did.
    ///
    /// Only the identifier is replaced. The addresses stay those of the
    /// session that this value was made for.
    pub fn renew(&mut self, answer: &Dict<String>) -> (done: bool)
        ensures
            done == answer@.dom().contains(session_id_key()),
            done ==> final(self)@ == (SessionView {
                session_id: answer@[session_id_key()]@,
                ..old(self)@
            }),
            !done ==> *final(self) == *old(self),
    {
        match answer.get("session_id") {
            Some(id) => {
                self.session_id = id.clone();
                true
            },
            None => false,
        }
    }

    /// The credential of the session.
    pub fn api_key(&self) -> (r: &str)
        ensures
            r@ == self@.api_key,
    {
        self.api_key.as_str()
    }

    /// The address at which a session like this one is created.
    pub fn session_url(&self) -> (r: &str)
        ensures
            r@ == self@.session_url,
    {
        self.session_url.as_str()
    }

    /// The address to which the session's messages are sent.
    pub fn send_url(&self) -> (r: &str)
        ensures
            r@ == self@.send_url,
    {
        self.send_url.as_str()
    }

    /// The address at which the session is deleted.
    pub fn delete_url(&self) -> (r: &str)
        ensures
            r@ == self@.delete_url,
    {
        self.delete_url.as_str()
    }
}

/// A message ready to be posted to the assistant: where to, with which
/// credential, and what.
#[derive(Debug)]
pub struct Post<'a> {
    pub url: &'a str,
    pub api_key: &'a str,
    pub body: UserInput<'a>,
}

/// A deletion ready to be asked of the assistant: where, and with which
/// credential.
#[derive(Debug)]
pub struct Delete {
    pub url: String,
    pub api_key: String,
}

/// The context whose main skill holds `context` as what the user defined,
/// and nothing else.
pub open spec fn user_context(context: UnknownType) -> ContextParts {
    ContextParts {
        timezone: None,
        user_id: None,
        turn_count: None,
        locale: None,
        reference_time: None,
        user_defined: Some(context),
    }
}

impl WASession {
    /// Prepares the sending of `message` in this session. The caller posts
    /// it.
    pub fn send<'a>(&'a self, message: UserInput<'a>) -> (post: Post<'a>)
        ensures
            post.url@ == self@.send_url,
            post.api_key@ == self@.api_key,
            post.body == message,
    {
        Post { url: self.send_url.as_str(), api_key: self.api_key.as_str(), body: message }
    }

    /// Prepares the sending of the plain text `input`, with the default
    /// options and without a context. The caller posts it.
    pub fn send_txt<'a>(&'a self, input: &'a str) -> (post: Post<'a>)
        ensures
            post.url@ == self@.send_url,
            post.api_key@ == self@.api_key,
            post.body == (UserInput { input: text_message(input), context: None }),
    {
        self.send(
            UserInputBuilder::builder().text(input).options(InputOptions::default()).build(),
        )
    }

    /// Prepares the sending of the plain text `input`, with the default
    /// options, and with a context whose main skill holds `context` as what
    /// the user defined. The caller posts it.
    pub fn send_txt_with_context<'a>(&'a self, input: &'a str, context: UnknownType) -> (post:
        Post<'a>)
        ensures
            post.url@ == self@.send_url,
            post.api_key@ == self@.api_key,
            post.body.input == text_message(input),
            post.body.context is Some,
            user_context(context).makes(post.body.context->0),
    {
        self.send(
            UserInputBuilder::builder().text(input).options(InputOptions::default()).context(
                ContextBuilder::builder().user_defined(context).build(),
            ).build(),
        )
    }

    /// Gives up the session for the deletion that ends it. The caller asks
    /// for it.
    pub fn close(self) -> (delete: Delete)
        ensures
            delete.url@ == self@.delete_url,
            delete.api_key@ == self@.api_key,
    {
        Delete { url: self.delete_url, api_key: self.api_key }
    }
}

} // verus!
