//! The assistant client's session state: one bounded conversation history
//! per session key (the selected model name), mirroring what the backend
//! library keeps alongside each chat request.
//!
//! The network call itself happens outside; this module owns everything
//! around it: which turns a request carries, how the history grows after a
//! successful exchange, how old turns are evicted once the bound is
//! reached, and what clearing the history means.

use vstd::prelude::*;

use crate::text::str_eq;

verus! {

/// Who spoke a turn of the conversation.
#[derive(Debug, Clone, Copy, PartialEq, Eq, Structural)]
pub enum Role {
    User,
    Assistant,
}

/// One conversation turn.
#[derive(Debug, Clone)]
pub struct ChatTurn {
    pub role: Role,
    pub content: String,
}

/// The mathematical value of a conversation turn.
pub struct TurnModel {
    pub role: Role,
    pub content: Seq<char>,
}

impl View for ChatTurn {
    type V = TurnModel;

    open spec fn view(&self) -> TurnModel {
        TurnModel { role: self.role, content: self.content@ }
    }
}

/// A user turn carrying the given text.
pub open spec fn user_turn(text: Seq<char>) -> TurnModel {
    TurnModel { role: Role::User, content: text }
}

/// An assistant turn carrying the given text.
pub open spec fn assistant_turn(text: Seq<char>) -> TurnModel {
    TurnModel { role: Role::Assistant, content: text }
}

/// The value of a sequence of turns.
pub open spec fn turns_view(turns: Seq<ChatTurn>) -> Seq<TurnModel> {
    turns.map_values(|t: ChatTurn| t@)
}

/// One chat request to the backend: a model name and the full history to
/// send, the new user turn last.
pub struct ChatRequest {
    pub model: String,
    pub messages: Vec<ChatTurn>,
}

/// The mathematical value of a chat request.
pub struct RequestModel {
    pub model: Seq<char>,
    pub messages: Seq<TurnModel>,
}

impl View for ChatRequest {
    type V = RequestModel;

    open spec fn view(&self) -> RequestModel {
        RequestModel { model: self.model@, messages: turns_view(self.messages@) }
    }
}

/// `history` extended by `turn`, evicting the oldest turn first when the
/// bound is already reached.
pub open spec fn bounded_push(history: Seq<TurnModel>, turn: TurnModel, limit: nat) -> Seq<
    TurnModel,
> {
    if history.len() >= limit {
        history.skip(1).push(turn)
    } else {
        history.push(turn)
    }
}

struct Session {
    id: String,
    history: Vec<ChatTurn>,
}

/// The conversation history for `id` in `sessions`: the first session with
/// that key, or no turns when none carries it.
spec fn lookup(sessions: Seq<Session>, id: Seq<char>) -> Seq<TurnModel>
    decreases sessions.len(),
{
    if sessions.len() == 0 {
        Seq::empty()
    } else if sessions[0].id@ == id {
        turns_view(sessions[0].history@)
    } else {
        lookup(sessions.skip(1), id)
    }
}

spec fn unique_ids(sessions: Seq<Session>) -> bool {
    forall|j: int, k: int|
        0 <= j < k < sessions.len() ==> sessions[j].id@ != sessions[k].id@
}

proof fn lemma_lookup_absent(sessions: Seq<Session>, id: Seq<char>)
    requires
        forall|j: int| 0 <= j < sessions.len() ==> sessions[j].id@ != id,
    ensures
        lookup(sessions, id) == Seq::<TurnModel>::empty(),
    decreases sessions.len(),
{
    if sessions.len() > 0 {
        assert(sessions[0].id@ != id);
        assert forall|j: int| 0 <= j < sessions.skip(1).len() implies sessions.skip(1)[j].id@
            != id by {
            assert(sessions.skip(1)[j] == sessions[j + 1]);
        }
        lemma_lookup_absent(sessions.skip(1), id);
    }
}

proof fn lemma_lookup_found(sessions: Seq<Session>, id: Seq<char>, i: int)
    requires
        0 <= i < sessions.len(),
        sessions[i].id@ == id,
        forall|j: int| 0 <= j < i ==> sessions[j].id@ != id,
    ensures
        lookup(sessions, id) == turns_view(sessions[i].history@),
    decreases i,
{
    if i > 0 {
        assert(sessions[0].id@ != id);
        assert forall|j: int| 0 <= j < i - 1 implies sessions.skip(1)[j].id@ != id by {
            assert(sessions.skip(1)[j] == sessions[j + 1]);
        }
        assert(sessions.skip(1)[i - 1] == sessions[i]);
        lemma_lookup_found(sessions.skip(1), id, i - 1);
    }
}

/// The assistant client's state: a bounded rolling history per session
/// key. `limit` is the largest number of turns a history may hold; it is
/// never below two, so one full exchange always fits.
pub struct AssistantClient {
    sessions: Vec<Session>,
    limit: usize,
}

impl AssistantClient {
    /// The history bound this client was built with.
    pub closed spec fn spec_limit(&self) -> nat {
        self.limit as nat
    }

    /// The turns currently stored for session key `id`.
    pub closed spec fn history(&self, id: Seq<char>) -> Seq<TurnModel> {
        lookup(self.sessions@, id)
    }

    /// Internal consistency: one stored session per key, a usable bound,
    /// and no history grown past the bound.
    pub closed spec fn wf(&self) -> bool {
        &&& unique_ids(self.sessions@)
        &&& self.limit >= 2
        &&& forall|j: int|
            0 <= j < self.sessions@.len() ==> (#[trigger] self.sessions@[j]).history@.len()
                <= self.limit
    }

    /// A fresh client with no stored turns. A bound below two is raised to
    /// two, as the backend library does.
    pub fn new(limit: usize) -> (c: Self)
        ensures
            c.wf(),
            c.spec_limit() == if limit >= 2 {
                limit as nat
            } else {
                2nat
            },
            forall|id: Seq<char>| c.history(id) == Seq::<TurnModel>::empty(),
    {
        let c = AssistantClient {
            sessions: Vec::new(),
            limit: if limit < 2 {
                2
            } else {
                limit
            },
        };
        proof {
            assert forall|id: Seq<char>| c.history(id) == Seq::<TurnModel>::empty() by {
                lemma_lookup_absent(c.sessions@, id);
            }
        }
        c
    }

    /// The index of the session stored under `id`, if any.
    fn find_session(&self, id: &str) -> (r: Option<usize>)
        ensures
            match r {
                Option::Some(i) => i < self.sessions@.len() && self.sessions@[i as int].id@ == id@
                    && forall|j: int| 0 <= j < i ==> self.sessions@[j].id@ != id@,
                Option::None => forall|j: int|
                    0 <= j < self.sessions@.len() ==> self.sessions@[j].id@ != id@,
            },
    {
        let n = self.sessions.len();
        let mut i: usize = 0;
        while i < n
            invariant
                n == self.sessions@.len(),
                i <= n,
                forall|j: int| 0 <= j < i ==> self.sessions@[j].id@ != id@,
            decreases n - i,
        {
            if str_eq(self.sessions[i].id.as_str(), id) {
                return Option::Some(i);
            }
            i += 1;
        }
        Option::None
    }

    /// Builds the request for one new user message under session key
    /// `model`: the stored history followed by the new user turn. The
    /// stored state is not changed; a turn is recorded only once the
    /// backend has answered.
    pub fn prepare_request(&self, model: &str, text: &str) -> (req: ChatRequest)
        ensures
            req@.model == model@,
            req@.messages == self.history(model@).push(user_turn(text@)),
    {
        let mut messages: Vec<ChatTurn> = match self.find_session(model) {
            Option::Some(i) => {
                proof {
                    lemma_lookup_found(self.sessions@, model@, i as int);
                }
                clone_turns(&self.sessions[i].history)
            },
            Option::None => {
                proof {
                    lemma_lookup_absent(self.sessions@, model@);
                }
                Vec::new()
            },
        };
        messages.push(ChatTurn { role: Role::User, content: text.to_owned() });
        proof {
            assert(turns_view(messages@) =~= self.history(model@).push(user_turn(text@)));
        }
        ChatRequest { model: model.to_owned(), messages }
    }

    /// Records one successful exchange under session key `model`: the user
    /// turn, then the assistant's reply, each appended with the oldest turn
    /// evicted once the bound is reached. Other sessions are untouched.
    pub fn record_exchange(&mut self, model: &str, prompt: &str, reply: &str)
        requires
            old(self).wf(),
        ensures
            final(self).wf(),
            final(self).spec_limit() == old(self).spec_limit(),
            final(self).history(model@) == bounded_push(
                bounded_push(
                    old(self).history(model@),
                    user_turn(prompt@),
                    old(self).spec_limit(),
                ),
                assistant_turn(reply@),
                old(self).spec_limit(),
            ),
            forall|id: Seq<char>|
                id != model@ ==> final(self).history(id) == old(self).history(id),
    {
        let ghost old_sessions = self.sessions@;
        let limit = self.limit;
        let (sid, history): (String, Vec<ChatTurn>) = match self.find_session(model) {
            Option::Some(i) => {
                proof {
                    lemma_lookup_found(old_sessions, model@, i as int);
                    lemma_unique_after_remove(old_sessions, i as int);
                    assert forall|x: Seq<char>| #[trigger]
                        lookup(old_sessions.remove(i as int), x) == if x == model@ {
                            Seq::<TurnModel>::empty()
                        } else {
                            lookup(old_sessions, x)
                        } by {
                        lemma_lookup_remove(old_sessions, i as int, x);
                    }
                    old_sessions.remove_ensures(i as int);
                    assert forall|j: int|
                        0 <= j < old_sessions.remove(i as int).len() implies old_sessions.remove(
                        i as int,
                    )[j].id@ != model@ && (#[trigger] old_sessions.remove(i as int)[j]).history@.len()
                        <= old(self).spec_limit() by {
                        if j < i {
                            assert(old_sessions.remove(i as int)[j] == old_sessions[j]);
                        } else {
                            assert(old_sessions.remove(i as int)[j] == old_sessions[j + 1]);
                        }
                    }
                }
                let found = self.sessions.remove(i);
                let Session { id, history } = found;
                (id, history)
            },
            Option::None => {
                proof {
                    lemma_lookup_absent(old_sessions, model@);
                }
                (model.to_owned(), Vec::new())
            },
        };
        let ghost trimmed = self.sessions@;
        proof {
            assert(turns_view(history@) =~= old(self).history(model@));
        }
        let history = push_turn(history, ChatTurn { role: Role::User, content: prompt.to_owned() }, limit);
        let history = push_turn(
            history,
            ChatTurn { role: Role::Assistant, content: reply.to_owned() },
            limit,
        );
        let session = Session { id: sid, history };
        let ghost new_session = session;
        proof {
            assert(new_session.id@ == model@);
            lemma_unique_after_push(trimmed, new_session);
            lemma_bounded_push_len(
                old(self).history(model@),
                user_turn(prompt@),
                old(self).spec_limit(),
            );
            lemma_bounded_push_len(
                bounded_push(old(self).history(model@), user_turn(prompt@), old(self).spec_limit()),
                assistant_turn(reply@),
                old(self).spec_limit(),
            );
            assert(new_session.history@.len() <= self.limit);
        }
        self.sessions.push(session);
        proof {
            assert forall|x: Seq<char>| #[trigger]
                lookup(self.sessions@, x) == if x == model@ {
                    turns_view(new_session.history@)
                } else {
                    lookup(trimmed, x)
                } by {
                lemma_lookup_push(trimmed, new_session, x);
            }
        }
    }

    /// Discards every stored session; the bound is kept.
    pub fn reset_history(&mut self)
        requires
            old(self).wf(),
        ensures
            final(self).wf(),
            final(self).spec_limit() == old(self).spec_limit(),
            forall|id: Seq<char>| final(self).history(id) == Seq::<TurnModel>::empty(),
    {
        self.sessions = Vec::new();
        proof {
            assert forall|id: Seq<char>| self.history(id) == Seq::<TurnModel>::empty() by {
                lemma_lookup_absent(self.sessions@, id);
            }
        }
    }
}

/// Removing the session at `i` makes its key read as empty and leaves every
/// other key as before, provided the keys are unique.
proof fn lemma_lookup_remove(sessions: Seq<Session>, i: int, x: Seq<char>)
    requires
        unique_ids(sessions),
        0 <= i < sessions.len(),
    ensures
        lookup(sessions.remove(i), x) == if x == sessions[i].id@ {
            Seq::<TurnModel>::empty()
        } else {
            lookup(sessions, x)
        },
{
    let trimmed = sessions.remove(i);
    sessions.remove_ensures(i);
    if x == sessions[i].id@ {
        assert forall|j: int| 0 <= j < trimmed.len() implies trimmed[j].id@ != x by {
            if j < i {
                assert(trimmed[j] == sessions[j]);
            } else {
                assert(trimmed[j] == sessions[j + 1]);
            }
        }
        lemma_lookup_absent(trimmed, x);
    } else if exists|k: int| 0 <= k < sessions.len() && sessions[k].id@ == x {
        let k = choose|k: int| 0 <= k < sessions.len() && sessions[k].id@ == x;
        assert forall|j: int| 0 <= j < k implies sessions[j].id@ != x by {
            assert(sessions[j].id@ != sessions[k].id@);
        }
        lemma_lookup_found(sessions, x, k);
        let t = if k < i {
            k
        } else {
            k - 1
        };
        assert(trimmed[t] == sessions[k]);
        assert forall|j: int| 0 <= j < t implies trimmed[j].id@ != x by {
            if j < i {
                assert(trimmed[j] == sessions[j]);
                assert(sessions[j].id@ != sessions[k].id@);
            } else {
                assert(trimmed[j] == sessions[j + 1]);
                assert(sessions[j + 1].id@ != sessions[k].id@);
            }
        }
        lemma_lookup_found(trimmed, x, t);
    } else {
        assert forall|j: int| 0 <= j < trimmed.len() implies trimmed[j].id@ != x by {
            if j < i {
                assert(trimmed[j] == sessions[j]);
            } else {
                assert(trimmed[j] == sessions[j + 1]);
            }
        }
        lemma_lookup_absent(trimmed, x);
        lemma_lookup_absent(sessions, x);
    }
}

/// Appending a session whose key is absent makes that key read as its
/// history and leaves every other key as before.
proof fn lemma_lookup_push(sessions: Seq<Session>, session: Session, x: Seq<char>)
    requires
        forall|j: int| 0 <= j < sessions.len() ==> sessions[j].id@ != session.id@,
    ensures
        lookup(sessions.push(session), x) == if x == session.id@ {
            turns_view(session.history@)
        } else {
            lookup(sessions, x)
        },
    decreases sessions.len(),
{
    let pushed = sessions.push(session);
    if sessions.len() == 0 {
        assert(pushed[0] == session);
        if x == session.id@ {
            assert(lookup(pushed, x) == turns_view(session.history@));
        } else {
            assert(pushed.skip(1) =~= Seq::<Session>::empty());
            assert(lookup(pushed, x) == lookup(pushed.skip(1), x));
            assert(lookup(pushed.skip(1), x) == Seq::<TurnModel>::empty());
            assert(lookup(sessions, x) == Seq::<TurnModel>::empty());
        }
    } else {
        assert(pushed[0] == sessions[0]);
        assert(sessions[0].id@ != session.id@);
        if sessions[0].id@ == x {
            assert(x != session.id@);
            assert(lookup(pushed, x) == turns_view(sessions[0].history@));
            assert(lookup(sessions, x) == turns_view(sessions[0].history@));
        } else {
            assert(pushed.skip(1) =~= sessions.skip(1).push(session));
            assert forall|j: int| 0 <= j < sessions.skip(1).len() implies sessions.skip(1)[j].id@
                != session.id@ by {
                assert(sessions.skip(1)[j] == sessions[j + 1]);
            }
            lemma_lookup_push(sessions.skip(1), session, x);
            assert(lookup(pushed, x) == lookup(sessions.skip(1).push(session), x));
            assert(lookup(sessions, x) == lookup(sessions.skip(1), x));
        }
    }
}

/// The given turns extended by one, evicting the oldest first when the
/// bound is reached.
fn push_turn(history: Vec<ChatTurn>, turn: ChatTurn, limit: usize) -> (r: Vec<ChatTurn>)
    requires
        limit >= 1,
    ensures
        turns_view(r@) == bounded_push(turns_view(history@), turn@, limit as nat),
{
    let ghost orig = history@;
    let mut h = history;
    if h.len() >= limit {
        h.remove(0);
        proof {
            assert(orig.remove(0) =~= orig.skip(1));
        }
        h.push(turn);
        proof {
            assert(h@ == orig.skip(1).push(turn));
            assert(turns_view(h@) =~= turns_view(orig).skip(1).push(turn@));
        }
    } else {
        h.push(turn);
        proof {
            assert(turns_view(h@) =~= turns_view(orig).push(turn@));
        }
    }
    h
}

/// Unique session keys survive removing a session.
proof fn lemma_unique_after_remove(sessions: Seq<Session>, i: int)
    requires
        unique_ids(sessions),
        0 <= i < sessions.len(),
    ensures
        unique_ids(sessions.remove(i)),
{
    sessions.remove_ensures(i);
    let trimmed = sessions.remove(i);
    assert forall|j: int, k: int| 0 <= j < k < trimmed.len() implies trimmed[j].id@
        != trimmed[k].id@ by {
        if j < i {
            assert(trimmed[j] == sessions[j]);
        } else {
            assert(trimmed[j] == sessions[j + 1]);
        }
        if k < i {
            assert(trimmed[k] == sessions[k]);
        } else {
            assert(trimmed[k] == sessions[k + 1]);
        }
    }
}

/// Unique session keys survive appending a session under a fresh key.
proof fn lemma_unique_after_push(sessions: Seq<Session>, session: Session)
    requires
        unique_ids(sessions),
        forall|j: int| 0 <= j < sessions.len() ==> sessions[j].id@ != session.id@,
    ensures
        unique_ids(sessions.push(session)),
{
    let pushed = sessions.push(session);
    assert forall|j: int, k: int| 0 <= j < k < pushed.len() implies pushed[j].id@
        != pushed[k].id@ by {
        assert(pushed[j] == sessions[j]);
        if k < sessions.len() {
            assert(pushed[k] == sessions[k]);
        } else {
            assert(pushed[k] == session);
        }
    }
}

/// A copy of the given turns, made field by field.
fn clone_turns(turns: &Vec<ChatTurn>) -> (r: Vec<ChatTurn>)
    ensures
        turns_view(r@) == turns_view(turns@),
{
    let n = turns.len();
    let mut r: Vec<ChatTurn> = Vec::new();
    let mut i: usize = 0;
    while i < n
        invariant
            n == turns@.len(),
            i <= n,
            r@.len() == i,
            forall|j: int| 0 <= j < i ==> r@[j]@ == turns@[j]@,
        decreases n - i,
    {
        r.push(ChatTurn { role: turns[i].role, content: turns[i].content.clone() });
        i += 1;
    }
    proof {
        assert(turns_view(r@) =~= turns_view(turns@));
    }
    r
}

/// The text of the backend's reply: the carried content, or the empty
/// string when the backend returned no message.
pub fn extract_reply(content: Option<String>) -> (r: String)
    ensures
        r@ == match content {
            Option::Some(c) => c@,
            Option::None => Seq::<char>::empty(),
        },
{
    match content {
        Option::Some(c) => c,
        Option::None => String::new(),
    }
}

/// A bounded push keeps the history within the bound.
proof fn lemma_bounded_push_len(h: Seq<TurnModel>, t: TurnModel, limit: nat)
    requires
        h.len() <= limit,
        limit >= 1,
    ensures
        bounded_push(h, t, limit).len() <= limit,
{
}

/// A lookup never yields more turns than every stored history holds.
proof fn lemma_lookup_bounded(sessions: Seq<Session>, id: Seq<char>, limit: nat)
    requires
        forall|j: int|
            0 <= j < sessions.len() ==> (#[trigger] sessions[j]).history@.len() <= limit,
    ensures
        lookup(sessions, id).len() <= limit,
    decreases sessions.len(),
{
    if sessions.len() > 0 && sessions[0].id@ != id {
        assert forall|j: int|
            0 <= j < sessions.skip(1).len() implies (#[trigger] sessions.skip(
            1,
        )[j]).history@.len() <= limit by {
            assert(sessions.skip(1)[j] == sessions[j + 1]);
        }
        lemma_lookup_bounded(sessions.skip(1), id, limit);
    }
}

/// Law: no session's history ever outgrows the bound the client was built
/// with; the oldest turns give way instead.
pub proof fn lemma_history_is_bounded(c: AssistantClient, id: Seq<char>)
    requires
        c.wf(),
    ensures
        c.history(id).len() <= c.spec_limit(),
{
    lemma_lookup_bounded(c.sessions@, id, c.spec_limit());
}

/// Law: clearing the history and immediately sending one message produces
/// a request that carries exactly one turn, the new user turn. After
/// `reset_history` every key's history is empty, and `prepare_request`
/// sends that history plus the new turn.
pub proof fn lemma_cleared_history_sends_one_turn(
    c: AssistantClient,
    model: Seq<char>,
    text: Seq<char>,
)
    requires
        forall|id: Seq<char>| c.history(id) == Seq::<TurnModel>::empty(),
    ensures
        c.history(model).push(user_turn(text)) =~= seq![user_turn(text)],
        c.history(model).push(user_turn(text)).len() == 1,
{
    assert(c.history(model) == Seq::<TurnModel>::empty());
}

} // verus!
