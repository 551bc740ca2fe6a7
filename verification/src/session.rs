//! In-memory chat histories, one per session.
use vstd::prelude::*;
use crate::ai::{ChatMessage, ChatMessageView, clone_messages, messages_view};
use crate::table::StrTable;
use crate::text::{owned, views_of};

verus! {

broadcast use vstd::string::group_string_axioms;

/// The history of `id` in `m`; a session that was never written is empty.
pub open spec fn history(m: Map<Seq<char>, Seq<ChatMessageView>>, id: Seq<char>) -> Seq<
    ChatMessageView,
> {
    if m.contains_key(id) {
        m[id]
    } else {
        Seq::empty()
    }
}

/// The histories after `id` was opened: a new session starts empty.
pub open spec fn opened(m: Map<Seq<char>, Seq<ChatMessageView>>, id: Seq<char>) -> Map<
    Seq<char>,
    Seq<ChatMessageView>,
> {
    if m.contains_key(id) {
        m
    } else {
        m.insert(id, Seq::empty())
    }
}

/// The histories after `msg` was appended to session `id`.
pub open spec fn appended(
    m: Map<Seq<char>, Seq<ChatMessageView>>,
    id: Seq<char>,
    msg: ChatMessageView,
) -> Map<Seq<char>, Seq<ChatMessageView>> {
    m.insert(id, history(m, id).push(msg))
}

/// Chat histories keyed by session id.
pub struct SessionStore {
    sessions: StrTable<Vec<ChatMessage>>,
}

impl View for SessionStore {
    type V = Map<Seq<char>, Seq<ChatMessageView>>;

    closed spec fn view(&self) -> Map<Seq<char>, Seq<ChatMessageView>> {
        self.sessions@.map_values(|h: Vec<ChatMessage>| messages_view(h@))
    }
}

impl SessionStore {
    #[verifier::type_invariant]
    closed spec fn inv(self) -> bool {
        self.sessions.wf()
    }

    /// An empty store.
    pub fn new() -> (s: Self)
        ensures
            s@ == Map::<Seq<char>, Seq<ChatMessageView>>::empty(),
    {
        let s = SessionStore { sessions: StrTable::new() };
        assert(s@ =~= Map::<Seq<char>, Seq<ChatMessageView>>::empty());
        s
    }

    /// The history of `session_id`; an unknown session is created empty.
    pub fn get_or_create(&mut self, session_id: &str) -> (h: Vec<ChatMessage>)
        ensures
            final(self)@ == opened(old(self)@, session_id@),
            messages_view(h@) == history(old(self)@, session_id@),
    {
        proof {
            use_type_invariant(&*self);
        }
        if self.sessions.find(session_id).is_none() {
            let mut t = StrTable::new();
            std::mem::swap(&mut t, &mut self.sessions);
            t.insert(owned(session_id), Vec::new());
            self.sessions = t;
            assert(messages_view(Seq::<ChatMessage>::empty()) =~= Seq::<ChatMessageView>::empty());
            assert(self@ =~= opened(old(self)@, session_id@));
        }
        proof {
            use_type_invariant(&*self);
        }
        let r = match self.sessions.get(session_id) {
            Some(h) => clone_messages(h),
            None => Vec::new(),
        };
        assert(messages_view(r@) =~= history(old(self)@, session_id@));
        r
    }

    /// Appends `message` to the history of `session_id`, creating it when
    /// needed.
    pub fn append(&mut self, session_id: &str, message: ChatMessage)
        ensures
            final(self)@ == appended(old(self)@, session_id@, message@),
    {
        proof {
            use_type_invariant(&*self);
        }
        let mut t = StrTable::new();
        std::mem::swap(&mut t, &mut self.sessions);
        let mut h = match t.remove(session_id) {
            Some(h) => h,
            None => Vec::new(),
        };
        h.push(message);
        assert(messages_view(h@) =~= history(old(self)@, session_id@).push(message@));
        t.insert(owned(session_id), h);
        self.sessions = t;
        assert(self@ =~= appended(old(self)@, session_id@, message@));
    }

    /// The ids of all sessions, each once.
    pub fn list_sessions(&self) -> (ids: Vec<String>)
        ensures
            views_of(ids@).no_duplicates(),
            views_of(ids@).to_set() == self@.dom(),
    {
        proof {
            use_type_invariant(self);
            self.sessions.lemma_order();
        }
        self.sessions.keys()
    }

    /// Forgets the history of `session_id`.
    pub fn clear(&mut self, session_id: &str)
        ensures
            final(self)@ == old(self)@.remove(session_id@),
    {
        proof {
            use_type_invariant(&*self);
        }
        let mut t = StrTable::new();
        std::mem::swap(&mut t, &mut self.sessions);
        let _ = t.remove(session_id);
        self.sessions = t;
        assert(self@ =~= old(self)@.remove(session_id@));
    }
}

impl Default for SessionStore {
    fn default() -> (s: Self)
        ensures
            s@ == Map::<Seq<char>, Seq<ChatMessageView>>::empty(),
    {
        SessionStore::new()
    }
}

/// What a read gives back of a write: after appending `msg` to a session,
/// its history is the previous history followed by `msg`.
pub proof fn law_read_after_append(
    m: Map<Seq<char>, Seq<ChatMessageView>>,
    id: Seq<char>,
    msg: ChatMessageView,
)
    ensures
        history(appended(m, id, msg), id) == history(m, id).push(msg),
{
}

/// Appending to one session leaves every other session's history as it was.
pub proof fn law_append_isolates_sessions(
    m: Map<Seq<char>, Seq<ChatMessageView>>,
    id: Seq<char>,
    other: Seq<char>,
    msg: ChatMessageView,
)
    requires
        id != other,
    ensures
        history(appended(m, id, msg), other) == history(m, other),
{
}

/// Reading a session changes no history.
pub proof fn law_read_keeps_histories(
    m: Map<Seq<char>, Seq<ChatMessageView>>,
    id: Seq<char>,
    any: Seq<char>,
)
    ensures
        history(opened(m, id), any) == history(m, any),
{
}

/// A cleared session reads back empty.
pub proof fn law_cleared_session_is_empty(m: Map<Seq<char>, Seq<ChatMessageView>>, id: Seq<char>)
    ensures
        history(m.remove(id), id) == Seq::<ChatMessageView>::empty(),
{
}

} // verus!
