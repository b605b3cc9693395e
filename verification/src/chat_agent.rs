//! The conversational agent: conversation memory, the topic decision that
//! routes a turn, and the assembly of the grounded one-shot prompt.

use vstd::prelude::*;
use crate::text::contains_seq;
use crate::text::lower_of;
use crate::text::lowercase;
use crate::text::str_contains;
use crate::vector_space::Document;

verus! {

#[derive(Clone, Copy, Debug, PartialEq, Eq, Structural)]
pub enum Role {
    System,
    Human,
    Assistant,
}

/// One entry of conversation memory.
#[derive(Debug)]
pub struct Message {
    pub role: Role,
    pub content: String,
}

/// The mathematical shape of a memory entry.
pub struct MessageView {
    pub role: Role,
    pub content: Seq<char>,
}

impl View for Message {
    type V = MessageView;

    open spec fn view(&self) -> MessageView {
        MessageView { role: self.role, content: self.content@ }
    }
}

impl DeepView for Message {
    type V = MessageView;

    open spec fn deep_view(&self) -> MessageView {
        self@
    }
}

pub open spec fn system_message(content: Seq<char>) -> MessageView {
    MessageView { role: Role::System, content }
}

pub open spec fn human_message(content: Seq<char>) -> MessageView {
    MessageView { role: Role::Human, content }
}

pub open spec fn assistant_message(content: Seq<char>) -> MessageView {
    MessageView { role: Role::Assistant, content }
}

impl Message {
    pub fn new_system_message(content: String) -> (m: Message)
        ensures
            m@ == system_message(content@),
    {
        Message { role: Role::System, content }
    }

    pub fn new_human_message(content: String) -> (m: Message)
        ensures
            m@ == human_message(content@),
    {
        Message { role: Role::Human, content }
    }

    pub fn new_ai_message(content: String) -> (m: Message)
        ensures
            m@ == assistant_message(content@),
    {
        Message { role: Role::Assistant, content }
    }
}

/// The topic a turn is routed by.
#[derive(Clone, Copy, Debug, PartialEq, Eq, Structural)]
pub enum Topic {
    Movie,
    Book,
    Other,
}

/// The topic a selected label names: the label is folded to lower case, and
/// a label that mentions `movie` wins over one that mentions `book`; any
/// other label means free chat.
pub open spec fn spec_topic_of(label: Seq<char>) -> Topic {
    if contains_seq(lower_of(label), "movie"@) {
        Topic::Movie
    } else if contains_seq(lower_of(label), "book"@) {
        Topic::Book
    } else {
        Topic::Other
    }
}

/// Folds the label to lower case and reads the topic out of it.
pub fn topic_of_label(label: &str) -> (t: Topic)
    ensures
        t == spec_topic_of(label@),
{
    let lowered = lowercase(label);
    if str_contains(lowered.as_str(), "movie") {
        Topic::Movie
    } else if str_contains(lowered.as_str(), "book") {
        Topic::Book
    } else {
        Topic::Other
    }
}

/// The collection a grounded topic retrieves from.
pub open spec fn spec_collection_for(t: Topic) -> Seq<char> {
    if t == Topic::Book {
        "books_collection"@
    } else {
        "movies_collection"@
    }
}

pub fn collection_for(t: Topic) -> (c: &'static str)
    requires
        t != Topic::Other,
    ensures
        c@ == spec_collection_for(t),
{
    if t == Topic::Book {
        "books_collection"
    } else {
        "movies_collection"
    }
}

/// The system preamble every agent's memory is seeded with.
pub open spec fn seed_prompt() -> Seq<char> {
    "
            ### System:
            System: You are a friendly consice assistant that answer the user query using the following pieces of 
            retrieved context to answer the query. If you don't know the answer, or are unsure, say you don't know.
            "@
}

fn seed_prompt_str() -> (s: &'static str)
    ensures
        s@ == seed_prompt(),
{
    "
            ### System:
            System: You are a friendly consice assistant that answer the user query using the following pieces of 
            retrieved context to answer the query. If you don't know the answer, or are unsure, say you don't know.
            "
}

/// The preamble of the grounded one-shot prompt.
pub open spec fn rag_preamble() -> Seq<char> {
    "### System: You are a friendly consice assistant that answer the user query 
            using the following pieces of retrieved context to answer the query. If you don't know the answer, or are unsure, 
            say you don't know.\n\n"@
}

fn rag_preamble_str() -> (s: &'static str)
    ensures
        s@ == rag_preamble(),
{
    "### System: You are a friendly consice assistant that answer the user query 
            using the following pieces of retrieved context to answer the query. If you don't know the answer, or are unsure, 
            say you don't know.\n\n"
}

/// The fixed answer of a grounded turn whose retrieval came back empty.
pub open spec fn fallback_answer() -> Seq<char> {
    "Sorry unable to resolve your query."@
}

/// The contents of retrieved documents, in retrieval order.
pub open spec fn contents_of(docs: Seq<Document>) -> Seq<Seq<char>> {
    docs.map_values(|d: Document| d.page_content@)
}

/// The block of retrieved context: each document's content followed by a
/// blank line.
pub open spec fn docs_block(contents: Seq<Seq<char>>) -> Seq<char>
    decreases contents.len(),
{
    if contents.len() == 0 {
        Seq::empty()
    } else {
        docs_block(contents.drop_last()) + contents.last() + "\n\n"@
    }
}

/// The grounded one-shot prompt: the preamble, the retrieved context, the
/// user's raw query between the two markers, and nothing after the assistant
/// marker.
pub open spec fn spec_rag_prompt(contents: Seq<Seq<char>>, query: Seq<char>) -> Seq<char> {
    rag_preamble() + docs_block(contents) + "### User:"@ + query + "### Assistant:"@
}

/// Assembles the grounded one-shot prompt from the retrieved documents and
/// the raw query.
pub fn build_rag_prompt(docs: &Vec<Document>, query: &str) -> (p: String)
    ensures
        p@ == spec_rag_prompt(contents_of(docs@), query@),
{
    let ghost all = contents_of(docs@);
    let mut p = rag_preamble_str().to_owned();
    let mut i: usize = 0;
    while i < docs.len()
        invariant
            i <= docs.len(),
            all == contents_of(docs@),
            all.len() == docs@.len(),
            p@ == rag_preamble() + docs_block(all.take(i as int)),
        decreases docs.len() - i,
    {
        proof {
            assert(all.take(i as int + 1).drop_last() =~= all.take(i as int));
            assert(all.take(i as int + 1).last() == all[i as int]);
            assert(all[i as int] == docs@[i as int].page_content@);
        }
        p.append(docs[i].page_content.as_str());
        p.append("\n\n");
        i = i + 1;
    }
    proof {
        assert(all.take(docs@.len() as int) =~= all);
    }
    p.append("### User:");
    p.append(query);
    p.append("### Assistant:");
    p
}

/// What the caller of a turn has to do next: run a similarity search for a
/// grounded topic, or send the whole memory to the chat model.
pub enum TurnAction {
    Search {
        collection: String,
        term: String,
        k: usize,
        db_url: String,
        embedder_url: String,
        model_name: String,
        dimensions: u16,
    },
    Chat { messages: Vec<Message> },
}

/// A grounded turn once retrieval has answered: the fixed fallback when
/// nothing was retrieved, else the prompt to send to the one-shot model.
pub enum RagOutcome {
    Fallback(String),
    Prompt(String),
}

/// The agent: its connection configuration and its conversation memory.
pub struct ChatAgent {
    pub api_base_url: String,
    pub classifier_url: String,
    pub api_key: String,
    pub model_name: String,
    pub db_url: String,
    pub embedder_url: String,
    pub memory: Vec<Message>,
}

/// The connection configuration of `b` is that of `a`: a turn only ever
/// touches memory.
pub open spec fn config_unchanged(a: &ChatAgent, b: &ChatAgent) -> bool {
    &&& a.api_base_url == b.api_base_url
    &&& a.classifier_url == b.classifier_url
    &&& a.api_key == b.api_key
    &&& a.model_name == b.model_name
    &&& a.db_url == b.db_url
    &&& a.embedder_url == b.embedder_url
}

fn clone_messages(v: &Vec<Message>) -> (r: Vec<Message>)
    ensures
        r.deep_view() == v.deep_view(),
{
    let mut r: Vec<Message> = Vec::new();
    let mut i: usize = 0;
    while i < v.len()
        invariant
            i <= v.len(),
            r@.len() == i,
            forall|j: int| 0 <= j < i ==> #[trigger] r@[j]@ == v@[j]@,
        decreases v.len() - i,
    {
        let m = Message { role: v[i].role, content: v[i].content.clone() };
        r.push(m);
        i = i + 1;
    }
    proof {
        assert forall|j: int| 0 <= j < v@.len() implies r.deep_view()[j] == v.deep_view()[j] by {
            assert(r@[j]@ == v@[j]@);
        }
        assert(r.deep_view() =~= v.deep_view());
    }
    r
}

impl ChatAgent {
    /// A fresh agent: memory holds exactly the one seeded system message.
    pub fn new(
        api_base_url: String,
        classifier_url: String,
        api_key: String,
        model_name: String,
        db_url: String,
        embedder_url: String,
    ) -> (a: ChatAgent)
        ensures
            a.api_base_url@ == api_base_url@,
            a.classifier_url@ == classifier_url@,
            a.api_key@ == api_key@,
            a.model_name@ == model_name@,
            a.db_url@ == db_url@,
            a.embedder_url@ == embedder_url@,
            a.memory.deep_view() == seq![system_message(seed_prompt())],
    {
        let memory = vec![Message::new_system_message(seed_prompt_str().to_owned())];
        proof {
            assert(memory.deep_view() =~= seq![system_message(seed_prompt())]);
        }
        ChatAgent { api_base_url, classifier_url, api_key, model_name, db_url, embedder_url, memory }
    }

    pub fn memory_len(&self) -> (n: usize)
        ensures
            n == self.memory@.len(),
    {
        self.memory.len()
    }

    /// A copy of the memory, entry for entry.
    pub fn memory_snapshot(&self) -> (v: Vec<Message>)
        ensures
            v.deep_view() == self.memory.deep_view(),
    {
        clone_messages(&self.memory)
    }

    /// Routes one turn from the selected classifier label. A grounded topic
    /// leaves memory untouched and asks for a similarity search on the label
    /// itself; any other topic appends the query to memory and asks for a
    /// chat completion over the whole memory.
    pub fn start_turn(&mut self, query: &str, label: &str) -> (action: TurnAction)
        ensures
            spec_topic_of(label@) != Topic::Other ==> *final(self) == *old(self),
            spec_topic_of(label@) != Topic::Other ==> (action matches TurnAction::Search {
                collection,
                term,
                k,
                db_url,
                embedder_url,
                model_name,
                dimensions,
            } && collection@ == spec_collection_for(spec_topic_of(label@)) && term@ == label@ && k
                == 5 && db_url@ == old(self).db_url@ && embedder_url@ == old(self).embedder_url@
                && model_name@ == old(self).model_name@ && dimensions == 2048),
            spec_topic_of(label@) == Topic::Other ==> final(self).memory.deep_view()
                == old(self).memory.deep_view().push(human_message(query@)),
            spec_topic_of(label@) == Topic::Other ==> config_unchanged(old(self), final(self)),
            spec_topic_of(label@) == Topic::Other ==> (action matches TurnAction::Chat { messages }
                && messages.deep_view() == final(self).memory.deep_view()),
    {
        let topic = topic_of_label(label);
        if topic == Topic::Movie || topic == Topic::Book {
            TurnAction::Search {
                collection: collection_for(topic).to_owned(),
                term: label.to_owned(),
                k: 5,
                db_url: self.db_url.clone(),
                embedder_url: self.embedder_url.clone(),
                model_name: self.model_name.clone(),
                dimensions: 2048,
            }
        } else {
            self.memory.push(Message::new_human_message(query.to_owned()));
            proof {
                assert(self.memory.deep_view() =~= old(self).memory.deep_view().push(
                    human_message(query@),
                ));
            }
            TurnAction::Chat { messages: clone_messages(&self.memory) }
        }
    }

    /// A grounded turn once the search has answered. Takes the agent by
    /// shared reference: a grounded turn can never touch memory.
    pub fn after_search(&self, docs: &Vec<Document>, query: &str) -> (r: RagOutcome)
        ensures
            docs@.len() == 0 ==> (r matches RagOutcome::Fallback(msg) && msg@
                == fallback_answer()),
            docs@.len() > 0 ==> (r matches RagOutcome::Prompt(p) && p@ == spec_rag_prompt(
                contents_of(docs@),
                query@,
            )),
    {
        if docs.len() == 0 {
            RagOutcome::Fallback("Sorry unable to resolve your query.".to_owned())
        } else {
            RagOutcome::Prompt(build_rag_prompt(docs, query))
        }
    }

    /// Ends a free-chat turn: the model's reply is appended to memory as the
    /// assistant entry and returned verbatim.
    pub fn finish_chat_turn(&mut self, response: String) -> (r: String)
        ensures
            final(self).memory.deep_view() == old(self).memory.deep_view().push(
                assistant_message(response@),
            ),
            config_unchanged(old(self), final(self)),
            r@ == response@,
    {
        self.memory.push(Message::new_ai_message(response.clone()));
        proof {
            assert(self.memory.deep_view() =~= old(self).memory.deep_view().push(
                assistant_message(response@),
            ));
        }
        response
    }
}

/// A free-chat turn grows memory by exactly two entries: the human entry with
/// the query, then the assistant entry with the reply, the reply being the
/// last entry's content; everything before them is unchanged.
pub proof fn lemma_chat_turn_grows_by_two(
    m0: Seq<MessageView>,
    query: Seq<char>,
    reply: Seq<char>,
)
    ensures
        m0.push(human_message(query)).push(assistant_message(reply)) == m0 + seq![
            human_message(query),
            assistant_message(reply),
        ],
        (m0 + seq![human_message(query), assistant_message(reply)]).len() == m0.len() + 2,
        (m0 + seq![human_message(query), assistant_message(reply)])[m0.len() as int]
            == human_message(query),
        (m0 + seq![human_message(query), assistant_message(reply)]).last() == assistant_message(
            reply,
        ),
        (m0 + seq![human_message(query), assistant_message(reply)]).take(m0.len() as int) == m0,
{
    assert(m0.push(human_message(query)).push(assistant_message(reply)) =~= m0 + seq![
        human_message(query),
        assistant_message(reply),
    ]);
    assert((m0 + seq![human_message(query), assistant_message(reply)]).take(m0.len() as int)
        =~= m0);
}

} // verus!
