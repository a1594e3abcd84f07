use vstd::prelude::*;

verus! {

/// Who authored a conversation turn.
#[derive(Clone, Copy, Debug, PartialEq, Eq, Structural)]
pub enum ChatRole {
    System,
    User,
    Assistant,
}

/// One chronological turn of a conversation.
pub struct Message {
    pub role: ChatRole,
    pub content: String,
}

impl View for Message {
    type V = (ChatRole, Seq<char>);

    open spec fn view(&self) -> (ChatRole, Seq<char>) {
        (self.role, self.content@)
    }
}

/// The named character's relation to another entity.
pub struct Relationship {
    pub to: String,
    pub description: String,
}

impl View for Relationship {
    type V = (Seq<char>, Seq<char>);

    open spec fn view(&self) -> (Seq<char>, Seq<char>) {
        (self.to@, self.description@)
    }
}

/// A request for a name: the conversation so far, and optional context.
pub struct GenerateRequest {
    pub histories: Vec<Message>,
    pub characteristics: Vec<String>,
    pub relationships: Vec<Relationship>,
}

/// The fixed instruction that opens every conversation sent upstream.
pub const SYSTEM_PROMPT: &'static str = "You are a fictional character name recommender. Recommend a fictional character name in double quote (\"). Answer with reasons.";

/// The abstract form of a sequence of messages.
pub open spec fn messages_view(v: Seq<Message>) -> Seq<(ChatRole, Seq<char>)> {
    v.map_values(|m: Message| m@)
}

pub open spec fn strings_view(v: Seq<String>) -> Seq<Seq<char>> {
    v.map_values(|s: String| s@)
}

pub open spec fn relationships_view(v: Seq<Relationship>) -> Seq<(Seq<char>, Seq<char>)> {
    v.map_values(|r: Relationship| r@)
}

/// The pieces put one after another with `sep` between neighbours.
pub open spec fn joined(pieces: Seq<Seq<char>>, sep: Seq<char>) -> Seq<char>
    decreases pieces.len(),
{
    if pieces.len() == 0 {
        Seq::empty()
    } else if pieces.len() == 1 {
        pieces[0]
    } else {
        joined(pieces.drop_last(), sep) + sep + pieces.last()
    }
}

pub open spec fn characteristic_line(c: Seq<char>) -> Seq<char> {
    "- This character "@ + c
}

pub open spec fn relationship_line(r: (Seq<char>, Seq<char>)) -> Seq<char> {
    "- This character and "@ + r.0 + " "@ + r.1
}

/// The text of the context message: the characteristic lines, a newline,
/// then the relationship lines.
pub open spec fn context_text(
    characteristics: Seq<Seq<char>>,
    relationships: Seq<(Seq<char>, Seq<char>)>,
) -> Seq<char> {
    joined(characteristics.map_values(|c: Seq<char>| characteristic_line(c)), "\n"@) + "\n"@
        + joined(relationships.map_values(|r: (Seq<char>, Seq<char>)| relationship_line(r)), "\n"@)
}

pub open spec fn has_context(req: GenerateRequest) -> bool {
    req.characteristics@.len() > 0 || req.relationships@.len() > 0
}

/// The messages sent upstream for `req`: the system prompt, the context
/// message when there is context, then the history unchanged.
pub open spec fn composed(req: GenerateRequest) -> Seq<(ChatRole, Seq<char>)> {
    let head = seq![(ChatRole::System, SYSTEM_PROMPT@)];
    let hist = messages_view(req.histories@);
    if has_context(req) {
        head + seq![(
            ChatRole::User,
            context_text(strings_view(req.characteristics@), relationships_view(req.relationships@)),
        )] + hist
    } else {
        head + hist
    }
}

/// Relies on itertools::join: the items' text with `sep` between neighbours.
#[verifier::external_body]
fn join(pieces: &Vec<String>, sep: &str) -> (r: String)
    ensures
        r@ == joined(strings_view(pieces@), sep@),
{
    itertools::join(pieces.iter(), sep)
}

/// The context lines for the given characteristics and relationships.
pub fn context_message(characteristics: &Vec<String>, relationships: &Vec<Relationship>) -> (r:
    String)
    ensures
        r@ == context_text(strings_view(characteristics@), relationships_view(relationships@)),
{
    let mut char_lines: Vec<String> = Vec::new();
    let mut i: usize = 0;
    while i < characteristics.len()
        invariant
            i <= characteristics@.len(),
            char_lines@.len() == i,
            forall|k: int|
                0 <= k < i ==> #[trigger] char_lines@[k]@ == characteristic_line(
                    characteristics@[k]@,
                ),
        decreases characteristics@.len() - i,
    {
        let line = String::from_str("- This character ").concat(characteristics[i].as_str());
        char_lines.push(line);
        i = i + 1;
    }
    assert(strings_view(char_lines@) =~= strings_view(characteristics@).map_values(
        |c: Seq<char>| characteristic_line(c),
    ));
    let mut rel_lines: Vec<String> = Vec::new();
    let mut j: usize = 0;
    while j < relationships.len()
        invariant
            j <= relationships@.len(),
            rel_lines@.len() == j,
            forall|k: int|
                0 <= k < j ==> #[trigger] rel_lines@[k]@ == relationship_line(
                    relationships@[k]@,
                ),
        decreases relationships@.len() - j,
    {
        let rel = &relationships[j];
        let line = String::from_str("- This character and ").concat(rel.to.as_str()).concat(
            " ",
        ).concat(rel.description.as_str());
        rel_lines.push(line);
        j = j + 1;
    }
    assert(strings_view(rel_lines@) =~= relationships_view(relationships@).map_values(
        |r: (Seq<char>, Seq<char>)| relationship_line(r),
    ));
    join(&char_lines, "\n").concat("\n").concat(join(&rel_lines, "\n").as_str())
}

/// The ordered messages to send upstream for `req`.
pub fn compose_messages(req: &GenerateRequest) -> (r: Vec<Message>)
    ensures
        messages_view(r@) == composed(*req),
{
    let mut out: Vec<Message> = Vec::new();
    out.push(Message { role: ChatRole::System, content: String::from_str(SYSTEM_PROMPT) });
    if req.characteristics.len() > 0 || req.relationships.len() > 0 {
        let text = context_message(&req.characteristics, &req.relationships);
        out.push(Message { role: ChatRole::User, content: text });
    }
    let ghost start = messages_view(out@);
    let ghost n = out@.len();
    let mut i: usize = 0;
    while i < req.histories.len()
        invariant
            i <= req.histories@.len(),
            n == start.len(),
            out@.len() == n + i,
            forall|k: int| 0 <= k < n ==> #[trigger] out@[k]@ == start[k],
            forall|k: int|
                0 <= k < i ==> #[trigger] out@[n + k]@ == req.histories@[k]@,
        decreases req.histories@.len() - i,
    {
        let h = &req.histories[i];
        let m = Message { role: h.role, content: h.content.clone() };
        out.push(m);
        assert(out@[n + i]@ == req.histories@[i as int]@);
        i = i + 1;
    }
    assert forall|k: int| n <= k < out@.len() implies out@[k]@ == req.histories@[k - n]@ by {
        assert(out@[n + (k - n)]@ == req.histories@[k - n]@);
    }
    assert(messages_view(out@) =~= start + messages_view(req.histories@));
    assert(messages_view(out@) =~= composed(*req));
    out
}

/// Without characteristics or relationships, the conversation sent upstream
/// is the system prompt followed by the history: one message more than the
/// history holds.
pub proof fn lemma_no_context_length(req: GenerateRequest)
    requires
        req.characteristics@.len() == 0,
        req.relationships@.len() == 0,
    ensures
        composed(req).len() == req.histories@.len() + 1,
{
}

/// With a characteristic or a relationship, one context message is added
/// second: it holds the characteristic lines, then the relationship lines,
/// each in the order given.
pub proof fn lemma_context_message(req: GenerateRequest)
    requires
        has_context(req),
    ensures
        composed(req).len() == req.histories@.len() + 2,
        composed(req)[1].0 == ChatRole::User,
        composed(req)[1].1 == joined(
            req.characteristics@.map_values(|c: String| characteristic_line(c@)),
            "\n"@,
        ) + "\n"@ + joined(
            req.relationships@.map_values(|r: Relationship| relationship_line(r@)),
            "\n"@,
        ),
{
    assert(strings_view(req.characteristics@).map_values(|c: Seq<char>| characteristic_line(c))
        =~= req.characteristics@.map_values(|c: String| characteristic_line(c@)));
    assert(relationships_view(req.relationships@).map_values(
        |r: (Seq<char>, Seq<char>)| relationship_line(r),
    ) =~= req.relationships@.map_values(|r: Relationship| relationship_line(r@)));
}

/// The first message sent upstream is always the fixed system prompt.
pub proof fn lemma_system_prompt_first(req: GenerateRequest)
    ensures
        composed(req).len() >= 1,
        composed(req)[0] == (ChatRole::System, SYSTEM_PROMPT@),
{
}

/// The history closes the conversation sent upstream, each message with its
/// role and content unchanged and in the order given.
pub proof fn lemma_history_kept(req: GenerateRequest)
    ensures
        composed(req).len() >= req.histories@.len(),
        forall|k: int|
            0 <= k < req.histories@.len() ==> #[trigger] composed(req)[composed(req).len()
                - req.histories@.len() + k] == req.histories@[k]@,
{
}

} // verus!
