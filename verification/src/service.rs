//! The command service: what the control surface decides about each
//! request, and when it starts to serve.
//!
//! The service does no input or output. Whoever runs it reads the directory,
//! resolves paths and parses request bodies, and hands the outcome in.

use crate::catalog::{lemma_catalog_contents, spec_catalog, Catalog};
use crate::channel::{lemma_deliveries, spec_deliveries, SelectionCommand, UpdateChannel};
use crate::handoff::{spec_take, Handoff, HandoffState};
use crate::listing::{render_page, spec_page};
use crate::names::{has_separator, is_png_name, spec_has_separator, spec_is_png_name};
use crate::order::name_views;
use crate::paths::{
    is_strictly_within, join_path, lemma_join_within, spec_join, spec_strictly_within,
};
use crate::response::{
    spec_acknowledged, spec_failure, spec_image_served, spec_page_served, Response, ResponseView,
    Status,
};
use vstd::prelude::*;

verus! {

/// The largest body a select request may carry, in bytes: 16 KiB.
pub const MAX_BODY_BYTES: u64 = 16384;

/// The image shown before the first command arrives.
pub const DEFAULT_IMAGE: &'static str = "00-splash.png";

/// Where the service stands. It moves down this list and never back; there
/// is no stopped state.
#[derive(Clone, Copy, Debug, PartialEq, Eq, Structural)]
pub enum Phase {
    /// Created, not yet asked to start.
    NotStarted,
    /// Started, blocked until the render side deposits the handoff.
    AwaitingHandoff,
    /// The handoff was taken: requests are served.
    Serving,
}

/// Why a read of the file system failed.
#[derive(Clone, Copy, Debug, PartialEq, Eq, Structural)]
pub enum ReadFailure {
    /// The file or directory is absent.
    NotFound,
    /// Any other failure.
    Other,
}

/// One select request as mathematics: the size of its body, the file name
/// parsed from it (none where the body is not a well-formed request), and the
/// directory snapshot read for it (none where the directory is unreadable).
pub struct SelectRequest {
    pub body_len: u64,
    pub parsed: Option<Seq<char>>,
    pub snapshot: Option<Seq<Seq<char>>>,
}

/// The state of a service as mathematics.
pub struct ServiceView {
    pub resource_dir: Seq<char>,
    pub phase: Phase,
}

/// The phase after a start.
pub open spec fn spec_started(phase: Phase) -> Phase {
    if phase is NotStarted {
        Phase::AwaitingHandoff
    } else {
        phase
    }
}

/// The phase after one look at the handoff slot, what the look handed out,
/// and the state it left the slot in. Only an awaiting service looks.
pub open spec fn spec_awaited<T>(phase: Phase, slot: HandoffState<T>) -> (
    Phase,
    Option<T>,
    HandoffState<T>,
) {
    if phase is AwaitingHandoff {
        let (value, left) = spec_take(slot);
        (
            if value is Some {
                Phase::Serving
            } else {
                phase
            },
            value,
            left,
        )
    } else {
        (phase, None, slot)
    }
}

/// The answer to a list request.
pub open spec fn spec_list(phase: Phase, snapshot: Option<Seq<Seq<char>>>) -> ResponseView {
    if !(phase is Serving) {
        spec_failure(Status::Unavailable)
    } else {
        match snapshot {
            None => spec_failure(Status::InternalError),
            Some(names) => spec_page_served(spec_page(spec_catalog(names))),
        }
    }
}

/// A name that may be fetched: no separator in it, and the `.png` suffix.
pub open spec fn spec_valid_image_name(name: Seq<char>) -> bool {
    !spec_has_separator(name) && spec_is_png_name(name)
}

/// First step of a fetch, on the requested name alone: the path to resolve,
/// or the refusal.
pub open spec fn spec_fetch_request(phase: Phase, dir: Seq<char>, name: Seq<char>) -> Result<
    Seq<char>,
    ResponseView,
> {
    if !(phase is Serving) {
        Err(spec_failure(Status::Unavailable))
    } else if !spec_valid_image_name(name) {
        Err(spec_failure(Status::BadRequest))
    } else {
        Ok(spec_join(dir, name))
    }
}

/// Second step of a fetch, on the canonical forms of the resource directory
/// and of the requested path: the path to read, or the refusal.
pub open spec fn spec_fetch_resolved(
    phase: Phase,
    canonical_dir: Result<Seq<char>, ReadFailure>,
    canonical_path: Result<Seq<char>, ReadFailure>,
) -> Result<Seq<char>, ResponseView> {
    if !(phase is Serving) {
        Err(spec_failure(Status::Unavailable))
    } else {
        match canonical_dir {
            Err(_) => Err(spec_failure(Status::InternalError)),
            Ok(dir) => match canonical_path {
                Err(ReadFailure::NotFound) => Err(spec_failure(Status::NotFound)),
                Err(ReadFailure::Other) => Err(spec_failure(Status::InternalError)),
                Ok(path) => if spec_strictly_within(dir, path) {
                    Ok(path)
                } else {
                    Err(spec_failure(Status::Forbidden))
                },
            },
        }
    }
}

/// Last step of a fetch, on the outcome of reading the file.
pub open spec fn spec_fetch_read(phase: Phase, content: Result<Seq<u8>, ReadFailure>) -> ResponseView {
    if !(phase is Serving) {
        spec_failure(Status::Unavailable)
    } else {
        match content {
            Ok(bytes) => spec_image_served(bytes),
            Err(ReadFailure::NotFound) => spec_failure(Status::NotFound),
            Err(ReadFailure::Other) => spec_failure(Status::InternalError),
        }
    }
}

/// The status of a select request. The checks come in this order: is the
/// service serving, is the body within the limit, is it well formed, can the
/// directory be read, is the name in the catalog.
pub open spec fn spec_select_status(phase: Phase, request: SelectRequest) -> Status {
    if !(phase is Serving) {
        Status::Unavailable
    } else if request.body_len > MAX_BODY_BYTES {
        Status::PayloadTooLarge
    } else if request.parsed is None {
        Status::BadRequest
    } else if request.snapshot is None {
        Status::InternalError
    } else if !spec_catalog(request.snapshot->0).contains(request.parsed->0) {
        Status::BadRequest
    } else {
        Status::Served
    }
}

/// The answer to a select request.
pub open spec fn spec_select_reply(phase: Phase, request: SelectRequest) -> ResponseView {
    if spec_select_status(phase, request) is Served {
        spec_acknowledged()
    } else {
        spec_failure(spec_select_status(phase, request))
    }
}

/// The channel after a select request: an accepted request appends one
/// command, whose target is the resource directory joined with the requested
/// name; any other request leaves the channel as it was.
pub open spec fn spec_select_queue(
    queue: Seq<Seq<char>>,
    phase: Phase,
    dir: Seq<char>,
    request: SelectRequest,
) -> Seq<Seq<char>> {
    if spec_select_status(phase, request) is Served {
        queue.push(spec_join(dir, request.parsed->0))
    } else {
        queue
    }
}

/// The channel after the select requests `requests` were handled one after
/// the other.
pub open spec fn spec_after_selects(
    queue: Seq<Seq<char>>,
    phase: Phase,
    dir: Seq<char>,
    requests: Seq<SelectRequest>,
) -> Seq<Seq<char>>
    decreases requests.len(),
{
    if requests.len() == 0 {
        queue
    } else {
        spec_select_queue(
            spec_after_selects(queue, phase, dir, requests.drop_last()),
            phase,
            dir,
            requests.last(),
        )
    }
}

/// The targets of the accepted requests among `requests`, in request order.
pub open spec fn spec_accepted_targets(
    phase: Phase,
    dir: Seq<char>,
    requests: Seq<SelectRequest>,
) -> Seq<Seq<char>>
    decreases requests.len(),
{
    if requests.len() == 0 {
        Seq::empty()
    } else {
        spec_select_queue(
            spec_accepted_targets(phase, dir, requests.drop_last()),
            phase,
            dir,
            requests.last(),
        )
    }
}

/// The view of what a step of a fetch hands back.
pub open spec fn step_view(step: Result<String, Response>) -> Result<Seq<char>, ResponseView> {
    match step {
        Ok(path) => Ok(path@),
        Err(response) => Err(response@),
    }
}

/// The view of the outcome of resolving a path.
pub open spec fn resolved_view(outcome: Result<String, ReadFailure>) -> Result<
    Seq<char>,
    ReadFailure,
> {
    match outcome {
        Ok(path) => Ok(path@),
        Err(failure) => Err(failure),
    }
}

/// The view of the outcome of reading a file.
pub open spec fn content_view(outcome: Result<Vec<u8>, ReadFailure>) -> Result<
    Seq<u8>,
    ReadFailure,
> {
    match outcome {
        Ok(bytes) => Ok(bytes@),
        Err(failure) => Err(failure),
    }
}

/// The view of the outcome of reading the resource directory.
pub open spec fn snapshot_view(snapshot: Option<&Vec<String>>) -> Option<Seq<Seq<char>>> {
    match snapshot {
        Some(names) => Some(name_views(names@)),
        None => None,
    }
}

/// The view of a select request as it is handed to the service.
pub open spec fn request_view(
    body_len: u64,
    parsed: Option<String>,
    snapshot: Option<&Vec<String>>,
) -> SelectRequest {
    SelectRequest {
        body_len,
        parsed: match parsed {
            Some(name) => Some(name@),
            None => None,
        },
        snapshot: snapshot_view(snapshot),
    }
}

/// Startup ordering: a service serves only after it took the deposited value
/// from the handoff slot. Until then every request is refused as
/// unavailable, whatever it asks, and no command reaches the channel.
pub proof fn lemma_refused_before_handoff<T>(
    phase: Phase,
    slot: HandoffState<T>,
    dir: Seq<char>,
    name: Seq<char>,
    canonical_dir: Result<Seq<char>, ReadFailure>,
    canonical_path: Result<Seq<char>, ReadFailure>,
    content: Result<Seq<u8>, ReadFailure>,
    request: SelectRequest,
    queue: Seq<Seq<char>>,
)
    ensures
        !(spec_started(Phase::NotStarted) is Serving),
        spec_started(phase) is Serving ==> phase is Serving,
        spec_awaited(phase, slot).0 is Serving ==> phase is Serving || (phase is AwaitingHandoff
            && slot is Filled && spec_awaited(phase, slot).1 == Some(slot->0)),
        !(phase is Serving) ==> {
            &&& spec_list(phase, request.snapshot) == spec_failure(Status::Unavailable)
            &&& spec_fetch_request(phase, dir, name) == Err::<Seq<char>, ResponseView>(
                spec_failure(Status::Unavailable),
            )
            &&& spec_fetch_resolved(phase, canonical_dir, canonical_path) == Err::<
                Seq<char>,
                ResponseView,
            >(spec_failure(Status::Unavailable))
            &&& spec_fetch_read(phase, content) == spec_failure(Status::Unavailable)
            &&& spec_select_reply(phase, request) == spec_failure(Status::Unavailable)
            &&& spec_select_queue(queue, phase, dir, request) == queue
        },
{
}

/// There is no way back: a serving service stays serving.
pub proof fn lemma_serving_is_final<T>(slot: HandoffState<T>)
    ensures
        spec_started(Phase::Serving) is Serving,
        spec_awaited(Phase::Serving, slot) == (Phase::Serving, None::<T>, slot),
{
}

/// A name that holds a separator is refused as a bad request before any
/// path is formed; the path formed from any other name lies, as text,
/// strictly below the resource directory; and a path is handed out for
/// reading only if its canonical form lies strictly below the canonical
/// resource directory.
pub proof fn lemma_fetch_stays_inside(
    dir: Seq<char>,
    name: Seq<char>,
    canonical_dir: Result<Seq<char>, ReadFailure>,
    canonical_path: Result<Seq<char>, ReadFailure>,
)
    ensures
        spec_has_separator(name) ==> spec_fetch_request(Phase::Serving, dir, name) == Err::<
            Seq<char>,
            ResponseView,
        >(spec_failure(Status::BadRequest)),
        Status::BadRequest.spec_is_client_error(),
        Status::Forbidden.spec_is_client_error(),
        Status::NotFound.spec_is_client_error(),
        dir.len() > 0 && spec_fetch_request(Phase::Serving, dir, name) is Ok
            ==> spec_strictly_within(dir, spec_fetch_request(Phase::Serving, dir, name)->Ok_0),
        spec_fetch_resolved(Phase::Serving, canonical_dir, canonical_path) is Ok ==> {
            &&& canonical_dir is Ok
            &&& canonical_path is Ok
            &&& spec_fetch_resolved(Phase::Serving, canonical_dir, canonical_path)
                == Ok::<Seq<char>, ResponseView>(canonical_path->Ok_0)
            &&& spec_strictly_within(canonical_dir->Ok_0, canonical_path->Ok_0)
        },
{
    if dir.len() > 0 && spec_valid_image_name(name) {
        lemma_join_within(dir, name);
    }
}

/// A body over the limit is refused for its size alone: what it holds is
/// never looked at, and no command is sent.
pub proof fn lemma_oversized_body_refused(
    request: SelectRequest,
    dir: Seq<char>,
    queue: Seq<Seq<char>>,
)
    requires
        request.body_len > MAX_BODY_BYTES,
    ensures
        spec_select_reply(Phase::Serving, request) == spec_failure(Status::PayloadTooLarge),
        spec_select_queue(queue, Phase::Serving, dir, request) == queue,
        Status::PayloadTooLarge.spec_is_client_error(),
{
}

/// A request is accepted exactly if its body is within the limit and names a
/// file of the snapshot that ends with `.png`.
pub proof fn lemma_select_accepts(request: SelectRequest)
    ensures
        spec_select_status(Phase::Serving, request) is Served <==> {
            &&& request.body_len <= MAX_BODY_BYTES
            &&& request.parsed is Some
            &&& request.snapshot is Some
            &&& request.snapshot->0.contains(request.parsed->0)
            &&& spec_is_png_name(request.parsed->0)
        },
{
    if request.snapshot is Some {
        lemma_catalog_contents(request.snapshot->0);
    }
}

/// Handling requests one after the other appends the targets of the accepted
/// ones to the channel, in request order, and nothing else.
pub proof fn lemma_after_selects(
    queue: Seq<Seq<char>>,
    phase: Phase,
    dir: Seq<char>,
    requests: Seq<SelectRequest>,
)
    ensures
        spec_after_selects(queue, phase, dir, requests) == queue + spec_accepted_targets(
            phase,
            dir,
            requests,
        ),
    decreases requests.len(),
{
    if requests.len() == 0 {
        assert(queue + Seq::<Seq<char>>::empty() =~= queue);
    } else {
        lemma_after_selects(queue, phase, dir, requests.drop_last());
        let before = spec_accepted_targets(phase, dir, requests.drop_last());
        if spec_select_status(phase, requests.last()) is Served {
            let target = spec_join(dir, requests.last().parsed->0);
            assert((queue + before).push(target) =~= queue + before.push(target));
        }
    }
}

/// Order is kept from request to render: the commands of the accepted
/// requests are delivered in the order in which the requests were handled,
/// each exactly once.
pub proof fn lemma_selects_delivered_in_order(dir: Seq<char>, requests: Seq<SelectRequest>)
    ensures
        spec_deliveries(
            spec_after_selects(Seq::empty(), Phase::Serving, dir, requests),
            spec_accepted_targets(Phase::Serving, dir, requests).len(),
        ) == spec_accepted_targets(Phase::Serving, dir, requests),
{
    let accepted = spec_accepted_targets(Phase::Serving, dir, requests);
    lemma_after_selects(Seq::empty(), Phase::Serving, dir, requests);
    assert(Seq::<Seq<char>>::empty() + accepted =~= accepted);
    lemma_deliveries(accepted, accepted.len());
    assert(accepted.take(accepted.len() as int) =~= accepted);
}

/// The command service of one resource directory.
pub struct Service {
    resource_dir: String,
    phase: Phase,
}

impl View for Service {
    type V = ServiceView;

    closed spec fn view(&self) -> ServiceView {
        ServiceView { resource_dir: self.resource_dir@, phase: self.phase }
    }
}

impl Service {
    /// A service for the images of `resource_dir`, not yet started.
    pub fn new(resource_dir: String) -> (service: Service)
        ensures
            service@ == (ServiceView { resource_dir: resource_dir@, phase: Phase::NotStarted }),
    {
        Service { resource_dir, phase: Phase::NotStarted }
    }

    /// The resource directory.
    pub fn resource_dir(&self) -> (dir: &str)
        ensures
            dir@ == self@.resource_dir,
    {
        self.resource_dir.as_str()
    }

    /// Where the service stands.
    pub fn phase(&self) -> (phase: Phase)
        ensures
            phase == self@.phase,
    {
        self.phase
    }

    /// Readiness probe: whether requests are served.
    pub fn is_ready(&self) -> (ready: bool)
        ensures
            ready == (self@.phase is Serving),
    {
        match self.phase {
            Phase::Serving => true,
            _ => false,
        }
    }

    /// The command for the image shown before any selection.
    pub fn default_command(&self) -> (command: SelectionCommand)
        ensures
            command@ == spec_join(self@.resource_dir, DEFAULT_IMAGE@),
    {
        SelectionCommand { target_file: join_path(self.resource_dir.as_str(), DEFAULT_IMAGE) }
    }

    /// Starts the service: from now on it waits for the handoff. A service
    /// that was started before stays as it is.
    pub fn start(&mut self)
        ensures
            final(self)@ == (ServiceView { phase: spec_started(old(self)@.phase), ..old(self)@ }),
    {
        match self.phase {
            Phase::NotStarted => {
                self.phase = Phase::AwaitingHandoff;
            },
            _ => {},
        }
    }

    /// Looks once at the handoff slot. An awaiting service that finds the
    /// deposited value takes it and serves from then on; one that finds
    /// nothing stays blocked, and its caller waits and looks again. In any
    /// other phase the slot is not touched.
    pub fn await_handoff<T>(&mut self, slot: &mut Handoff<T>) -> (value: Option<T>)
        ensures
            (final(self)@.phase, value, final(slot).state()) == spec_awaited(
                old(self)@.phase,
                old(slot).state(),
            ),
            final(self)@.resource_dir == old(self)@.resource_dir,
    {
        match self.phase {
            Phase::AwaitingHandoff => {
                let value = slot.take();
                if value.is_some() {
                    self.phase = Phase::Serving;
                }
                value
            },
            _ => None,
        }
    }

    /// Answers a list request, given the names found in the resource
    /// directory, or nothing where the directory could not be read.
    pub fn list(&self, snapshot: Option<&Vec<String>>) -> (response: Response)
        ensures
            response@ == spec_list(self@.phase, snapshot_view(snapshot)),
    {
        if !self.is_ready() {
            return Response::failure(Status::Unavailable);
        }
        match snapshot {
            None => Response::failure(Status::InternalError),
            Some(names) => {
                let catalog = Catalog::build(names);
                Response::page(render_page(&catalog))
            },
        }
    }

    /// First step of a fetch: checks the requested name without touching the
    /// file system, and hands out the path to resolve.
    pub fn fetch_request(&self, name: &str) -> (step: Result<String, Response>)
        ensures
            step_view(step) == spec_fetch_request(self@.phase, self@.resource_dir, name@),
    {
        if !self.is_ready() {
            return Err(Response::failure(Status::Unavailable));
        }
        if has_separator(name) || !is_png_name(name) {
            return Err(Response::failure(Status::BadRequest));
        }
        Ok(join_path(self.resource_dir.as_str(), name))
    }

    /// Second step of a fetch: given the canonical forms of the resource
    /// directory and of the requested path, hands out the path to read only
    /// if it lies strictly below the directory.
    pub fn fetch_resolved(
        &self,
        canonical_dir: Result<String, ReadFailure>,
        canonical_path: Result<String, ReadFailure>,
    ) -> (step: Result<String, Response>)
        ensures
            step_view(step) == spec_fetch_resolved(
                self@.phase,
                resolved_view(canonical_dir),
                resolved_view(canonical_path),
            ),
    {
        if !self.is_ready() {
            return Err(Response::failure(Status::Unavailable));
        }
        match canonical_dir {
            Err(_) => Err(Response::failure(Status::InternalError)),
            Ok(dir) => match canonical_path {
                Err(ReadFailure::NotFound) => Err(Response::failure(Status::NotFound)),
                Err(ReadFailure::Other) => Err(Response::failure(Status::InternalError)),
                Ok(path) => {
                    if is_strictly_within(dir.as_str(), path.as_str()) {
                        Ok(path)
                    } else {
                        Err(Response::failure(Status::Forbidden))
                    }
                },
            },
        }
    }

    /// Last step of a fetch: answers with the bytes that were read, or with
    /// the failure of the read.
    pub fn fetch_read(&self, content: Result<Vec<u8>, ReadFailure>) -> (response: Response)
        ensures
            response@ == spec_fetch_read(self@.phase, content_view(content)),
    {
        if !self.is_ready() {
            return Response::failure(Status::Unavailable);
        }
        match content {
            Ok(bytes) => Response::image(bytes),
            Err(ReadFailure::NotFound) => Response::failure(Status::NotFound),
            Err(ReadFailure::Other) => Response::failure(Status::InternalError),
        }
    }

    /// Whether a select request with a body of `body_len` bytes is within the
    /// size limit. A body over the limit is not to be parsed.
    pub fn body_within_limit(body_len: u64) -> (within: bool)
        ensures
            within == (body_len <= MAX_BODY_BYTES),
    {
        body_len <= MAX_BODY_BYTES
    }

    /// Answers a select request and, where it is accepted, sends its command.
    ///
    /// `body_len` is the size of the request body, `parsed` the file name
    /// parsed from it (none where the body was not parsed or is not a
    /// well-formed request), `snapshot` the names found in the resource
    /// directory (none where it could not be read).
    pub fn select(
        &self,
        channel: &mut UpdateChannel,
        body_len: u64,
        parsed: Option<String>,
        snapshot: Option<&Vec<String>>,
    ) -> (response: Response)
        ensures
            response@ == spec_select_reply(self@.phase, request_view(body_len, parsed, snapshot)),
            final(channel)@ == spec_select_queue(
                old(channel)@,
                self@.phase,
                self@.resource_dir,
                request_view(body_len, parsed, snapshot),
            ),
    {
        if !self.is_ready() {
            return Response::failure(Status::Unavailable);
        }
        if !Self::body_within_limit(body_len) {
            return Response::failure(Status::PayloadTooLarge);
        }
        match parsed {
            None => Response::failure(Status::BadRequest),
            Some(name) => match snapshot {
                None => Response::failure(Status::InternalError),
                Some(names) => {
                    let catalog = Catalog::build(names);
                    if catalog.contains(name.as_str()) {
                        let target_file = join_path(self.resource_dir.as_str(), name.as_str());
                        channel.send(SelectionCommand { target_file });
                        Response::acknowledged()
                    } else {
                        Response::failure(Status::BadRequest)
                    }
                },
            },
        }
    }
}

} // verus!
