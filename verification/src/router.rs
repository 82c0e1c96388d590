//! The registry of commands, and the dispatch of a request to its handler.

use crate::context::CommandContext;
use crate::error::{Error, ErrorKind};
use crate::handler::CommandHandler;
use crate::http::{Request, Response};
use crate::response::error_response;
use core::marker::PhantomData;
use vstd::hash_map::StringHashMap;
use vstd::prelude::*;
use vstd::string::StrSliceExecFns;

verus! {

/// The name of the command that a target path asks for: the path without
/// the separators that it begins with.
pub open spec fn command_name(path: Seq<char>) -> Seq<char>
    decreases path.len(),
{
    if path.len() > 0 && path[0] == '/' {
        command_name(path.skip(1))
    } else {
        path
    }
}

/// Takes the leading separators off a target path.
pub fn strip_separators(path: &str) -> (name: &str)
    ensures
        name@ == command_name(path@),
{
    let len: usize = path.unicode_len();
    let mut start: usize = 0;
    assert(path@.skip(0) =~= path@);
    while start < len && path.get_char(start) == '/'
        invariant
            start <= len,
            len == path@.len(),
            command_name(path@) == command_name(path@.skip(start as int)),
        decreases len - start,
    {
        assert(path@.skip(start as int)[0] == path@[start as int]);
        assert(path@.skip(start as int).skip(1) =~= path@.skip(start + 1));
        start += 1;
    }
    assert(path@.skip(start as int) =~= path@.subrange(start as int, len as int));
    path.substring_char(start, len)
}

/// Whether `ctx` is the context of a request that has just arrived from the
/// webview `label`: it holds a clone of the handle, and no argument has been
/// asked for.
pub open spec fn fresh<H: Clone>(ctx: CommandContext<H>, app_handle: H, label: Seq<char>) -> bool {
    &&& cloned(app_handle, ctx@.app_handle)
    &&& ctx@.webview_label == label
    &&& ctx@.json_args is None
}

/// A handler without the type of its function.
trait ErasedCommandHandler<H>: Send + Sync {
    spec fn accepts(&self) -> bool;

    spec fn responds(&self, request: Request, ctx: CommandContext<H>, response: Response) -> bool;

    fn call(&self, ctx: CommandContext<H>, request: Request) -> (response: Response)
        requires
            self.accepts(),
        ensures
            self.responds(request, ctx, response),
    ;
}

/// A handler together with the shape of its function.
struct Typed<C, T> {
    handler: C,
    shape: PhantomData<T>,
}

impl<H, T, C> ErasedCommandHandler<H> for Typed<C, T> where
    T: Send + Sync,
    C: CommandHandler<H, T> + Send + Sync,
 {
    spec fn accepts(&self) -> bool {
        self.handler.accepts()
    }

    spec fn responds(&self, request: Request, ctx: CommandContext<H>, response: Response) -> bool {
        self.handler.responds(request, ctx, response)
    }

    fn call(&self, ctx: CommandContext<H>, request: Request) -> (response: Response) {
        self.handler.call(request, ctx)
    }
}

/// One entry of the registry.
#[verifier::reject_recursive_types(H)]
struct Registered<H> {
    handler: Box<dyn ErasedCommandHandler<H>>,
}

fn erase<H, T, C>(handler: C) -> (entry: Registered<H>) where
    C: CommandHandler<H, T> + Send + Sync + 'static,
    T: Send + Sync + 'static,

    ensures
        entry.handler.accepts() == handler.accepts(),
        forall|request: Request, ctx: CommandContext<H>, response: Response|
            #[trigger] entry.handler.responds(request, ctx, response) == handler.responds(
                request,
                ctx,
                response,
            ),
{
    Registered { handler: Box::new(Typed { handler, shape: PhantomData }) }
}

/// The router that holds command handlers and dispatches requests.
#[verifier::reject_recursive_types(H)]
pub struct Router<H> {
    commands: StringHashMap<Registered<H>>,
}

impl<H> Router<H> {
    #[verifier::type_invariant]
    spec fn every_handler_is_callable(self) -> bool {
        forall|name: Seq<char>| #[trigger]
            self.commands@.contains_key(name) ==> self.commands@[name].handler.accepts()
    }

    /// Whether a handler is registered under `name`.
    pub closed spec fn has_command(&self, name: Seq<char>) -> bool {
        self.commands@.contains_key(name)
    }

    /// Whether `response` is a way in which the handler registered under
    /// `name` may answer the request in this context.
    pub closed spec fn command_responds(
        &self,
        name: Seq<char>,
        request: Request,
        ctx: CommandContext<H>,
        response: Response,
    ) -> bool {
        self.commands@[name].handler.responds(request, ctx, response)
    }

    /// Creates a new empty router.
    pub fn new() -> (router: Self)
        ensures
            forall|name: Seq<char>| !#[trigger] router.has_command(name),
    {
        Router { commands: StringHashMap::new() }
    }

    /// Whether `after` is this router with `handler` registered under `cmd`:
    /// `cmd` is answered by `handler`, and every other name as before.
    pub open spec fn registers<C, T>(&self, cmd: Seq<char>, handler: C, after: &Self) -> bool where
        C: CommandHandler<H, T>,
     {
        &&& forall|name: Seq<char>| #[trigger]
            after.has_command(name) == (name == cmd || self.has_command(name))
        &&& forall|name: Seq<char>, request: Request, ctx: CommandContext<H>, response: Response|
            name != cmd ==> #[trigger] after.command_responds(name, request, ctx, response)
                == self.command_responds(name, request, ctx, response)
        &&& forall|request: Request, ctx: CommandContext<H>, response: Response|
            #[trigger] after.command_responds(cmd, request, ctx, response) == handler.responds(
                request,
                ctx,
                response,
            )
    }

    /// Registers a command handler for the given command name. A handler
    /// that was registered under that name before is replaced.
    pub fn command<C, T>(self, cmd: &str, handler: C) -> (router: Self) where
        C: CommandHandler<H, T> + Send + Sync + 'static,
        T: Send + Sync + 'static,

        requires
            handler.accepts(),
        ensures
            self.registers::<C, T>(cmd@, handler, &router),
    {
        proof {
            use_type_invariant(&self);
        }
        let entry = erase::<H, T, C>(handler);
        let Router { commands } = self;
        let mut commands = commands;
        commands.insert(cmd.to_owned(), entry);
        Router { commands }
    }
}

impl<H> Default for Router<H> {
    fn default() -> (router: Self)
        ensures
            forall|name: Seq<char>| !#[trigger] router.has_command(name),
    {
        Self::new()
    }
}

impl<H: Clone> Router<H> {
    /// Whether `response` is a way in which this router may answer the
    /// request that came from the webview `label`.
    ///
    /// An unknown name gives the response of `CommandNotFound` with the
    /// name. A known name gives what its handler answers in a context that
    /// is new.
    pub open spec fn dispatches(
        &self,
        app_handle: H,
        label: Seq<char>,
        request: Request,
        response: Response,
    ) -> bool {
        let name = command_name(request.path@);
        if self.has_command(name) {
            exists|ctx: CommandContext<H>|
                fresh(ctx, app_handle, label) && #[trigger] self.command_responds(
                    name,
                    request,
                    ctx,
                    response,
                )
        } else {
            response@ == error_response((ErrorKind::CommandNotFound, name))
        }
    }

    /// Handles an incoming request by dispatching it to the appropriate
    /// command handler.
    pub fn handle_request(
        &self,
        app_handle: &H,
        webview_label: &str,
        request: Request,
    ) -> (response: Response)
        ensures
            self.dispatches(*app_handle, webview_label@, request, response),
    {
        proof {
            use_type_invariant(self);
        }
        let command_name = strip_separators(request.path.as_str());
        let ctx = CommandContext::new(app_handle.clone(), webview_label.to_owned());
        match self.commands.get(command_name) {
            Some(entry) => {
                let response = entry.handler.call(ctx, request);
                assert(fresh(ctx, *app_handle, webview_label@));
                assert(self.command_responds(command_name@, request, ctx, response));
                response
            },
            None => crate::response::error(Error::CommandNotFound(command_name.to_owned())),
        }
    }
}

} // verus!
