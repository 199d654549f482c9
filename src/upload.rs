//! The decisions of an upload request, one multipart event at a time.
//!
//! The driver reads the multipart body and reports each event to an `UploadSession`, which
//! answers with the next action. A part with a usable file name is staged: its payload is
//! written aside, under no name of the root directory. Staged parts reach their own names only
//! when the body ends cleanly; when the framing breaks, every staged part is discarded, so a
//! malformed request leaves no file behind. A part that cannot be staged or moved is only
//! logged, and the others go on: within a well-formed request, writing is best-effort.
//!
//! A declared file name is used only when it names a file inside the root directory: it is not
//! empty, holds no `/` or `\`, and is not `.` or `..`. Any other part is skipped, so a client
//! cannot write outside the root directory.
use crate::routes::Page;
use vstd::prelude::*;

verus! {

/// An event of an upload request, as the multipart reader reports it.
#[derive(Clone, Debug)]
pub enum UploadEvent {
    /// The headers of the next part were read.
    Part { file_name: Option<String>, content_type: Option<String> },
    /// The body ended after its last part.
    End,
    /// The multipart framing could not be read.
    Malformed,
}

/// What the driver does next.
#[derive(Clone, Debug)]
pub enum UploadAction {
    /// Read the part's payload and stage it, to be stored later as `file_name` in the root
    /// directory.
    Stage { file_name: String, content_type: String },
    /// Leave the part and read on.
    Skip,
    /// The request is over: move the staged parts, in the order they were staged, to the names
    /// in `commit` (the first staged part to the first name, and so on), discard every staged
    /// part that has no name there, and redirect the client to `page`.
    Finish { commit: Vec<String>, page: Page },
}

/// An upload event, by its view.
pub enum EventView {
    Part(Option<Seq<char>>, Option<Seq<char>>),
    End,
    Malformed,
}

/// An upload action, by its view.
pub enum ActionView {
    Stage(Seq<char>, Seq<char>),
    Skip,
    Finish(Seq<Seq<char>>, Page),
}

/// The view of an optional text.
pub open spec fn text_view(t: Option<String>) -> Option<Seq<char>> {
    match t {
        Some(s) => Some(s@),
        None => None,
    }
}

/// The views of a list of texts.
pub open spec fn texts_view(v: Seq<String>) -> Seq<Seq<char>> {
    v.map_values(|s: String| s@)
}

pub open spec fn event_view(e: UploadEvent) -> EventView {
    match e {
        UploadEvent::Part { file_name, content_type } => EventView::Part(
            text_view(file_name),
            text_view(content_type),
        ),
        UploadEvent::End => EventView::End,
        UploadEvent::Malformed => EventView::Malformed,
    }
}

pub open spec fn action_view(a: UploadAction) -> ActionView {
    match a {
        UploadAction::Stage { file_name, content_type } => ActionView::Stage(
            file_name@,
            content_type@,
        ),
        UploadAction::Skip => ActionView::Skip,
        UploadAction::Finish { commit, page } => ActionView::Finish(texts_view(commit@), page),
    }
}

/// A declared file name that stays inside the root directory.
pub open spec fn storable_name(n: Seq<char>) -> bool {
    &&& n.len() > 0
    &&& !n.contains('/')
    &&& !n.contains('\\')
    &&& n != "."@
    &&& n != ".."@
}

/// The content type of a part, `text/plain` when it declares none.
pub open spec fn content_type_or_default(c: Option<Seq<char>>) -> Seq<char> {
    match c {
        Some(t) => t,
        None => "text/plain"@,
    }
}

/// A part that is kept: one that declares a storable file name.
pub open spec fn is_named_part(e: EventView) -> bool {
    e matches EventView::Part(Some(n), _) && storable_name(n)
}

/// The action that answers an event, `staged` being the names of the parts staged so far.
pub open spec fn action_of(staged: Seq<Seq<char>>, e: EventView) -> ActionView {
    match e {
        EventView::Part(Some(n), c) => if storable_name(n) {
            ActionView::Stage(n, content_type_or_default(c))
        } else {
            ActionView::Skip
        },
        EventView::Part(None, _) => ActionView::Skip,
        EventView::End => ActionView::Finish(staged, Page::ReceiveDone),
        EventView::Malformed => ActionView::Finish(Seq::empty(), Page::Error),
    }
}

/// The names of the parts staged after an event, `staged` being those staged before it.
pub open spec fn staged_next(staged: Seq<Seq<char>>, e: EventView) -> Seq<Seq<char>> {
    match e {
        EventView::Part(Some(n), _) => if storable_name(n) {
            staged.push(n)
        } else {
            staged
        },
        EventView::Part(None, _) => staged,
        _ => Seq::empty(),
    }
}

/// Whether an event ends the request.
pub open spec fn ends_request(e: EventView) -> bool {
    !(e is Part)
}

/// The events of one request: parts, then one event that ends it.
pub open spec fn is_request(events: Seq<EventView>) -> bool {
    &&& events.len() > 0
    &&& ends_request(events.last())
    &&& forall|i: int| 0 <= i < events.len() - 1 ==> !ends_request(#[trigger] events[i])
}

/// The names of the parts staged once `events` are answered, from a session that has staged
/// none.
pub open spec fn staged_after(events: Seq<EventView>) -> Seq<Seq<char>>
    decreases events.len(),
{
    if events.len() == 0 {
        Seq::empty()
    } else {
        staged_next(staged_after(events.drop_last()), events.last())
    }
}

/// The actions that answer the events of a request, in order.
pub open spec fn request_actions(events: Seq<EventView>) -> Seq<ActionView> {
    Seq::new(events.len(), |i: int| action_of(staged_after(events.take(i)), events[i]))
}

/// The names of the parts of `events` that declare a storable file name, in order.
pub open spec fn named_parts(events: Seq<EventView>) -> Seq<Seq<char>>
    decreases events.len(),
{
    if events.len() == 0 {
        Seq::empty()
    } else if is_named_part(events.last()) {
        named_parts(events.drop_last()).push(events.last()->Part_0->Some_0)
    } else {
        named_parts(events.drop_last())
    }
}

/// The names that `actions` commit files to, in order.
pub open spec fn commits(actions: Seq<ActionView>) -> Seq<Seq<char>>
    decreases actions.len(),
{
    if actions.len() == 0 {
        Seq::empty()
    } else {
        commits(actions.drop_last()) + match actions.last() {
            ActionView::Finish(names, _) => names,
            _ => Seq::empty(),
        }
    }
}

/// Whether `name` is a storable file name.
pub fn is_storable_name(name: &str) -> (r: bool)
    ensures
        r == storable_name(name@),
{
    proof {
        reveal_strlit(".");
        reveal_strlit("..");
    }
    let n = name.unicode_len();
    let mut dots: usize = 0;
    let mut i: usize = 0;
    while i < n
        invariant
            n == name@.len(),
            0 <= i <= n,
            dots <= i,
            forall|k: int| 0 <= k < i ==> name@[k] != '/' && name@[k] != '\\',
            dots == i <==> forall|k: int| 0 <= k < i ==> name@[k] == '.',
        decreases n - i,
    {
        let c = name.get_char(i);
        if c == '/' || c == '\\' {
            return false;
        }
        if c == '.' && dots == i {
            dots += 1;
        }
        i += 1;
    }
    if n == 0 {
        return false;
    }
    if dots == n && n <= 2 {
        proof {
            if n == 1 {
                assert(name@ =~= "."@);
            } else {
                assert(name@ =~= ".."@);
            }
        }
        return false;
    }
    true
}

/// The progress of one upload request.
pub struct UploadSession {
    finished: bool,
    staged: Vec<String>,
}

impl UploadSession {
    /// A request whose body is still to be read.
    pub fn new() -> (r: UploadSession)
        ensures
            !r.is_finished(),
            r.staged_names() == Seq::<Seq<char>>::empty(),
    {
        UploadSession { finished: false, staged: Vec::new() }
    }

    /// Whether the request has ended.
    pub closed spec fn is_finished(&self) -> bool {
        self.finished
    }

    /// The names of the parts staged so far, in order.
    pub closed spec fn staged_names(&self) -> Seq<Seq<char>> {
        texts_view(self.staged@)
    }

    /// Whether the request has ended.
    pub fn finished(&self) -> (r: bool)
        ensures
            r == self.is_finished(),
    {
        self.finished
    }

    /// Answers the next event of the request: a part with a storable file name is staged under
    /// that name, any other part is skipped; the end of the body commits every staged part and
    /// leads to the upload-complete page, and broken framing commits none and leads to the
    /// error page.
    pub fn step(&mut self, event: &UploadEvent) -> (r: UploadAction)
        requires
            !old(self).is_finished(),
        ensures
            action_view(r) == action_of(old(self).staged_names(), event_view(*event)),
            final(self).staged_names() == staged_next(old(self).staged_names(), event_view(*event)),
            final(self).is_finished() == ends_request(event_view(*event)),
    {
        match event {
            UploadEvent::Part { file_name, content_type } => match file_name {
                Some(name) => {
                    if is_storable_name(name.as_str()) {
                        let content_type = match content_type {
                            Some(t) => t.clone(),
                            None => "text/plain".to_owned(),
                        };
                        let ghost before = self.staged@;
                        self.staged.push(name.clone());
                        proof {
                            assert(texts_view(self.staged@) =~= texts_view(before).push(name@));
                        }
                        UploadAction::Stage { file_name: name.clone(), content_type }
                    } else {
                        UploadAction::Skip
                    }
                },
                None => UploadAction::Skip,
            },
            UploadEvent::End => {
                let mut commit: Vec<String> = Vec::new();
                std::mem::swap(&mut commit, &mut self.staged);
                self.finished = true;
                proof {
                    assert(texts_view(self.staged@) =~= Seq::<Seq<char>>::empty());
                }
                UploadAction::Finish { commit, page: Page::ReceiveDone }
            },
            UploadEvent::Malformed => {
                self.staged = Vec::new();
                self.finished = true;
                proof {
                    assert(texts_view(self.staged@) =~= Seq::<Seq<char>>::empty());
                }
                let commit: Vec<String> = Vec::new();
                proof {
                    assert(texts_view(commit@) =~= Seq::<Seq<char>>::empty());
                }
                UploadAction::Finish { commit, page: Page::Error }
            },
        }
    }
}

/// Actions that finish nothing commit no file.
proof fn lemma_no_finish_no_commit(actions: Seq<ActionView>)
    requires
        forall|i: int| 0 <= i < actions.len() ==> !(#[trigger] actions[i] is Finish),
    ensures
        commits(actions) == Seq::<Seq<char>>::empty(),
    decreases actions.len(),
{
    if actions.len() > 0 {
        lemma_no_finish_no_commit(actions.drop_last());
        assert(commits(actions) =~= commits(actions.drop_last()));
    }
}

/// Over parts alone, the session stages exactly the parts with a storable name.
proof fn lemma_parts_stage_named_parts(events: Seq<EventView>)
    requires
        forall|i: int| 0 <= i < events.len() ==> !ends_request(#[trigger] events[i]),
    ensures
        staged_after(events) == named_parts(events),
    decreases events.len(),
{
    if events.len() > 0 {
        lemma_parts_stage_named_parts(events.drop_last());
        assert(!ends_request(events[events.len() - 1]));
    }
}

/// Before its last event a request only stages and skips, and its last action finishes it
/// with the parts staged from all the others.
proof fn lemma_request_actions(events: Seq<EventView>)
    requires
        is_request(events),
    ensures
        commits(request_actions(events)) == match request_actions(events).last() {
            ActionView::Finish(names, _) => names,
            _ => Seq::<Seq<char>>::empty(),
        },
        request_actions(events).last() == action_of(
            named_parts(events.drop_last()),
            events.last(),
        ),
{
    let actions = request_actions(events);
    let n = events.len();
    assert forall|i: int| 0 <= i < actions.drop_last().len() implies !(
    #[trigger] actions.drop_last()[i] is Finish) by {
        assert(!ends_request(events[i]));
    }
    lemma_no_finish_no_commit(actions.drop_last());
    assert(events.take(n - 1) =~= events.drop_last());
    assert forall|i: int| 0 <= i < events.drop_last().len() implies !ends_request(
        #[trigger] events.drop_last()[i],
    ) by {
        assert(events.drop_last()[i] == events[i]);
    }
    lemma_parts_stage_named_parts(events.drop_last());
    assert(commits(actions) =~= commits(actions.drop_last()) + match actions.last() {
        ActionView::Finish(names, _) => names,
        _ => Seq::<Seq<char>>::empty(),
    });
}

/// An upload whose body ends cleanly stores, under its own name, each part that declares a
/// storable file name, in order, stores nothing else, and ends on the upload-complete page.
pub proof fn lemma_upload_stores_named_parts(events: Seq<EventView>)
    requires
        is_request(events),
        events.last() is End,
    ensures
        commits(request_actions(events)) == named_parts(events),
        request_actions(events).last() == ActionView::Finish(
            named_parts(events),
            Page::ReceiveDone,
        ),
{
    lemma_request_actions(events);
    assert(named_parts(events) == named_parts(events.drop_last()));
}

/// An upload whose framing breaks stores no file, whatever parts came before the break, and
/// ends on the error page.
pub proof fn lemma_malformed_upload_writes_nothing(events: Seq<EventView>)
    requires
        is_request(events),
        events.last() is Malformed,
    ensures
        commits(request_actions(events)) == Seq::<Seq<char>>::empty(),
        request_actions(events).last() == ActionView::Finish(Seq::empty(), Page::Error),
{
    lemma_request_actions(events);
}

} // verus!
