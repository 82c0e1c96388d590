//! The state of one dispatched request: who sent it, and how far its
//! positional arguments have been handed out.

use crate::error::{Error, ErrorKind, ErrorView};
use crate::json::{parse_array, parsed_array};
use serde_json::Value;
use vstd::prelude::*;
use vstd::string::StringExecFns;

verus! {

/// The host application, as far as a request needs it: it knows which
/// webviews are open. What it answers may change from one call to the next.
pub trait Host: Sized {
    /// A window that holds one webview.
    type WebviewWindow;

    /// A webview.
    type Webview;

    /// A window.
    type Window;

    /// The webview window with this label, if it is open.
    fn get_webview_window(&self, label: &str) -> Option<Self::WebviewWindow>;

    /// The webview with this label, if it is open.
    fn get_webview(&self, label: &str) -> Option<Self::Webview>;

    /// The window that a webview is shown in.
    fn window_of(webview: &Self::Webview) -> Self::Window;
}

/// A [`CommandContext`] as specifications see it.
pub struct ContextView<H> {
    /// The handle to the host application.
    pub app_handle: H,
    /// The label of the webview that sent the request.
    pub webview_label: Seq<char>,
    /// The positional arguments that are left, once the body has been read.
    pub json_args: Option<Seq<Value>>,
}

/// Context for a command execution.
///
/// It is made anew for each request. The body is read as a JSON array when
/// the first positional argument is asked for. Once it has been read, it is
/// not read again.
pub struct CommandContext<H> {
    pub(crate) app_handle: H,
    pub(crate) webview_label: String,
    pub(crate) json_args: Option<Vec<Value>>,
}

impl<H> View for CommandContext<H> {
    type V = ContextView<H>;

    closed spec fn view(&self) -> ContextView<H> {
        ContextView {
            app_handle: self.app_handle,
            webview_label: self.webview_label@,
            json_args: match self.json_args {
                Some(rest) => Some(rest@),
                None => None,
            },
        }
    }
}

/// The arguments that are there to hand out: those that are left, or, while
/// the body has not been read, what reading it gives.
pub open spec fn arguments(json_args: Option<Seq<Value>>, body: Seq<u8>) -> Result<
    Seq<Value>,
    Seq<char>,
> {
    match json_args {
        Some(rest) => Ok(rest),
        None => parsed_array(body),
    }
}

/// What asking for the next positional argument gives, and the context after
/// it. A body that is no JSON array leaves the context as it was.
pub open spec fn taken<H>(ctx: ContextView<H>, body: Seq<u8>) -> (
    Result<Value, ErrorView>,
    ContextView<H>,
) {
    match arguments(ctx.json_args, body) {
        Err(detail) => (
            Err((ErrorKind::DeserializationError, "Failed to parse request body: "@ + detail)),
            ctx,
        ),
        Ok(rest) => if rest.len() == 0 {
            (
                Err((ErrorKind::InvalidArgs, "no more arguments available"@)),
                ContextView { json_args: Some(rest), ..ctx },
            )
        } else {
            (Ok(rest[0]), ContextView { json_args: Some(rest.skip(1)), ..ctx })
        },
    }
}

/// The outcome of a step, with its error as specifications see it.
pub open spec fn outcome_view<T>(outcome: Result<T, Error>) -> Result<T, ErrorView> {
    match outcome {
        Ok(value) => Ok(value),
        Err(error) => Err(error@),
    }
}

/// What a lookup in the host comes to: what was found, or the error that
/// names the label.
pub open spec fn found_or_missing<W>(found: Option<W>, label: Seq<char>) -> Result<W, ErrorView> {
    match found {
        Some(surface) => Ok(surface),
        None => Err((ErrorKind::ResourceNotFound, label)),
    }
}

/// Turns the answer of the host into the outcome of an extraction.
pub fn require_found<W>(found: Option<W>, label: &str) -> (outcome: Result<W, Error>)
    ensures
        outcome_view(outcome) == found_or_missing(found, label@),
{
    match found {
        Some(surface) => Ok(surface),
        None => Err(Error::ResourceNotFound(label.to_owned())),
    }
}

impl<H> CommandContext<H> {
    /// The context of a request that has just arrived.
    pub fn new(app_handle: H, webview_label: String) -> (ctx: Self)
        ensures
            ctx@ == (ContextView { app_handle, webview_label: webview_label@, json_args: None }),
    {
        CommandContext { app_handle, webview_label, json_args: None }
    }

    /// Returns a reference to the application handle.
    pub fn app_handle(&self) -> (handle: &H)
        ensures
            *handle == self@.app_handle,
    {
        &self.app_handle
    }

    /// Returns the label of the webview that made the request.
    pub fn webview_label(&self) -> (label: &str)
        ensures
            label@ == self@.webview_label,
    {
        self.webview_label.as_str()
    }

    /// Takes the next JSON argument from the request body.
    ///
    /// The first call reads the body as a JSON array. Each call hands out
    /// the first argument that is left.
    pub fn take_json_arg(&mut self, body: &[u8]) -> (outcome: Result<Value, Error>)
        ensures
            outcome_view(outcome) == taken(old(self)@, body@).0,
            final(self)@ == taken(old(self)@, body@).1,
    {
        if self.json_args.is_none() {
            match parse_array(body) {
                Ok(values) => {
                    self.json_args = Some(values);
                },
                Err(detail) => {
                    let mut text = String::from_str("Failed to parse request body: ");
                    text.append(detail.as_str());
                    return Err(Error::DeserializationError(text));
                },
            }
        }
        let mut rest = self.json_args.take().unwrap();
        if rest.len() == 0 {
            self.json_args = Some(rest);
            Err(Error::InvalidArgs(String::from_str("no more arguments available")))
        } else {
            let first = rest.remove(0);
            assert(rest@ =~= taken(old(self)@, body@).1.json_args->0);
            self.json_args = Some(rest);
            Ok(first)
        }
    }
}

/// Whether `outcome` is what asking `host` for the webview window labelled
/// `label` comes to: the host was asked for that label, and what it found is
/// the outcome, or, where it found nothing, the error that names the label.
pub open spec fn webview_window_of<H: Host>(
    host: H,
    label: Seq<char>,
    outcome: Result<H::WebviewWindow, ErrorView>,
) -> bool {
    exists|asked: &str, found: Option<H::WebviewWindow>|
        {
            &&& asked@ == label
            &&& #[trigger] call_ensures(H::get_webview_window, (&host, asked), found)
            &&& outcome == found_or_missing(found, label)
        }
}

/// Whether `outcome` is what asking `host` for the webview labelled `label`
/// comes to: the host was asked for that label, and what it found is the
/// outcome, or, where it found nothing, the error that names the label.
pub open spec fn webview_of<H: Host>(
    host: H,
    label: Seq<char>,
    outcome: Result<H::Webview, ErrorView>,
) -> bool {
    exists|asked: &str, found: Option<H::Webview>|
        {
            &&& asked@ == label
            &&& #[trigger] call_ensures(H::get_webview, (&host, asked), found)
            &&& outcome == found_or_missing(found, label)
        }
}

/// Whether `outcome` is what asking `host` for the window of the webview
/// labelled `label` comes to: the webview is looked up as `webview_of` says,
/// and where it is found, the outcome is the window that the host gives for
/// it.
pub open spec fn window_of<H: Host>(
    host: H,
    label: Seq<char>,
    outcome: Result<H::Window, ErrorView>,
) -> bool {
    exists|webview: Result<H::Webview, ErrorView>|
        {
            &&& #[trigger] webview_of(host, label, webview)
            &&& match webview {
                Ok(shown) => outcome matches Ok(window) && call_ensures(
                    H::window_of,
                    (&shown,),
                    window,
                ),
                Err(error) => outcome == Err::<H::Window, ErrorView>(error),
            }
        }
}

impl<H: Host> CommandContext<H> {
    /// Returns the webview window that made the request.
    ///
    /// The host is asked for the webview window with the label of the
    /// context. What it finds is returned; where it finds none, the error
    /// names the label.
    pub fn webview_window(&self) -> (outcome: Result<H::WebviewWindow, Error>)
        ensures
            webview_window_of(self@.app_handle, self@.webview_label, outcome_view(outcome)),
    {
        let label = self.webview_label.as_str();
        let found = self.app_handle.get_webview_window(label);
        assert(call_ensures(H::get_webview_window, (&self.app_handle, label), found));
        require_found(found, label)
    }

    /// Returns the webview that made the request.
    ///
    /// The host is asked for the webview with the label of the context. What
    /// it finds is returned; where it finds none, the error names the label.
    pub fn webview(&self) -> (outcome: Result<H::Webview, Error>)
        ensures
            webview_of(self@.app_handle, self@.webview_label, outcome_view(outcome)),
    {
        let label = self.webview_label.as_str();
        let found = self.app_handle.get_webview(label);
        assert(call_ensures(H::get_webview, (&self.app_handle, label), found));
        require_found(found, label)
    }

    /// Returns the window that made the request.
    ///
    /// The webview is looked up as [`CommandContext::webview`] does. Where it
    /// is found, the host is asked for its window, and that window is
    /// returned.
    pub fn window(&self) -> (outcome: Result<H::Window, Error>)
        ensures
            window_of(self@.app_handle, self@.webview_label, outcome_view(outcome)),
    {
        let looked_up = self.webview();
        assert(webview_of(self@.app_handle, self@.webview_label, outcome_view(looked_up)));
        match looked_up {
            Ok(webview) => {
                let window = H::window_of(&webview);
                assert(call_ensures(H::window_of, (&webview,), window));
                Ok(window)
            },
            Err(error) => Err(error),
        }
    }
}

} // verus!
