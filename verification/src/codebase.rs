//! What the model is told of the codebase ahead of a message: excerpts, and the current file.

use vstd::prelude::*;
use vstd::utf8::{
    encode_utf8, encode_utf8_valid_utf8, is_char_boundary,
    is_char_boundary_iff_not_is_continuation_byte, is_char_boundary_start_end_of_seq, valid_utf8,
    valid_utf8_split,
};

use crate::completion::{CompletionMessage, CompletionMessageView};
use crate::context::{Effect, FileContext, FileContextView, ViewContext};
use crate::search::{first_index, lemma_first_index, lemma_first_index_at};

verus! {

/// How many excerpts a search for the user's query asks for.
pub const SEARCH_LIMIT: usize = 16;

/// The number of characters in the element id of an excerpt.
pub const ELEMENT_ID_LEN: usize = 21;

/// Names an element on the screen.
#[derive(PartialEq, Eq, Debug)]
pub enum ElementId {
    Integer(usize),
    Name(String),
}

#[verifier::ext_equal]
pub enum ElementIdView {
    Integer(usize),
    Name(Seq<char>),
}

impl DeepView for ElementId {
    type V = ElementIdView;

    open spec fn deep_view(&self) -> ElementIdView {
        match self {
            ElementId::Integer(number) => ElementIdView::Integer(*number),
            ElementId::Name(name) => ElementIdView::Name(name@),
        }
    }
}

impl Clone for ElementId {
    fn clone(&self) -> (res: Self)
        ensures
            res == *self,
    {
        match self {
            ElementId::Integer(number) => ElementId::Integer(*number),
            ElementId::Name(name) => ElementId::Name(name.clone()),
        }
    }
}

impl ElementId {
    /// Whether both ids name the same element.
    pub fn same(&self, other: &ElementId) -> (res: bool)
        ensures
            res == (self.deep_view() == other.deep_view()),
    {
        match (self, other) {
            (ElementId::Integer(left), ElementId::Integer(right)) => *left == *right,
            (ElementId::Name(left), ElementId::Name(right)) => *left == *right,
            _ => false,
        }
    }
}

/// The characters that [`random_id`] draws from.
pub open spec fn is_url_safe(c: char) -> bool {
    ||| c == '_'
    ||| c == '-'
    ||| '0' <= c <= '9'
    ||| 'a' <= c <= 'z'
    ||| 'A' <= c <= 'Z'
}

/// Calls `nanoid::format` with the default random source and the URL-safe alphabet of `nanoid`.
/// Of the result it claims only what holds of every draw: it has `size` characters, and each is a
/// letter or a digit of ASCII, `_` or `-`. Which ones are drawn is left to chance, so nothing is
/// said of two draws being different. A draw of no characters would never end, and one so long that
/// eight times its length overflows would panic.
#[verifier::external_body]
fn random_id(size: usize) -> (id: String)
    requires
        0 < size,
        8 * size <= usize::MAX,
    ensures
        id@.len() == size,
        forall|i: int| 0 <= i < id@.len() ==> is_url_safe(#[trigger] id@[i]),
{
    nanoid::format(nanoid::rngs::default, &nanoid::alphabet::SAFE, size)
}

/// A part of a file that a search found.
#[derive(PartialEq, Eq, Debug)]
pub struct CodebaseExcerpt {
    pub element_id: ElementId,
    pub path: String,
    pub text: String,
    /// How well the excerpt fits the query, in decimal.
    pub score: String,
    pub expanded: bool,
}

#[verifier::ext_equal]
pub struct CodebaseExcerptView {
    pub element_id: ElementIdView,
    pub path: Seq<char>,
    pub text: Seq<char>,
    pub score: Seq<char>,
    pub expanded: bool,
}

impl DeepView for CodebaseExcerpt {
    type V = CodebaseExcerptView;

    open spec fn deep_view(&self) -> CodebaseExcerptView {
        CodebaseExcerptView {
            element_id: self.element_id.deep_view(),
            path: self.path@,
            text: self.text@,
            score: self.score@,
            expanded: self.expanded,
        }
    }
}

/// The lesser of a byte offset and the length of a text: a range may be stale.
pub open spec fn clamped(offset: usize, len: nat) -> int {
    if offset < len {
        offset as int
    } else {
        len as int
    }
}

/// The byte range `start..end`, cut to the length of `text`, is a range of whole characters.
pub open spec fn is_excerpt_range(text: Seq<char>, start: usize, end: usize) -> bool {
    let bytes = encode_utf8(text);
    &&& clamped(start, bytes.len()) <= clamped(end, bytes.len())
    &&& is_char_boundary(bytes, clamped(start, bytes.len()))
    &&& is_char_boundary(bytes, clamped(end, bytes.len()))
}

/// The UTF-8 bytes of `text` in `start..end`, cut to its length.
pub open spec fn excerpt_bytes(text: Seq<char>, start: usize, end: usize) -> Seq<u8> {
    let bytes = encode_utf8(text);
    bytes.subrange(clamped(start, bytes.len()), clamped(end, bytes.len()))
}

/// A character boundary of a text is one of any whole-character prefix that reaches it.
proof fn lemma_boundary_of_prefix(bytes: Seq<u8>, index: int, end: int)
    requires
        valid_utf8(bytes),
        is_char_boundary(bytes, index),
        is_char_boundary(bytes, end),
        0 <= index <= end <= bytes.len(),
    ensures
        is_char_boundary(bytes.subrange(0, end), index),
{
    let prefix = bytes.subrange(0, end);
    valid_utf8_split(bytes, end);
    if index == end {
        is_char_boundary_start_end_of_seq(prefix);
    } else {
        is_char_boundary_iff_not_is_continuation_byte(bytes, index);
        is_char_boundary_iff_not_is_continuation_byte(prefix, index);
    }
}

/// Tells whether the byte range `start..end`, cut to the length of `text`, is a range of whole
/// characters.
pub fn range_fits(text: &str, start: usize, end: usize) -> (res: bool)
    ensures
        res == is_excerpt_range(text@, start, end),
{
    let len: usize = text.as_bytes().len();
    let low: usize = if start < len { start } else { len };
    let high: usize = if end < len { end } else { len };
    low <= high && text.is_char_boundary(low) && text.is_char_boundary(high)
}

impl CodebaseExcerpt {
    /// The excerpt of a file that a search result points at, under the given element id. The
    /// range is in bytes, and is cut to the length of the text.
    pub fn with_element_id(
        element_id: ElementId,
        path: String,
        text: &str,
        start: usize,
        end: usize,
        score: String,
    ) -> (excerpt: Self)
        requires
            is_excerpt_range(text@, start, end),
        ensures
            excerpt.element_id == element_id,
            excerpt.path == path,
            encode_utf8(excerpt.text@) == excerpt_bytes(text@, start, end),
            excerpt.score == score,
            !excerpt.expanded,
    {
        let ghost bytes = encode_utf8(text@);
        let len: usize = text.as_bytes().len();
        let low: usize = if start < len { start } else { len };
        let high: usize = if end < len { end } else { len };
        proof {
            encode_utf8_valid_utf8(text@);
            lemma_boundary_of_prefix(bytes, low as int, high as int);
        }
        let prefix = text.split_at(high).0;
        let part = prefix.split_at(low).1;
        assert(bytes.subrange(0, high as int).subrange(low as int, high as int) =~= bytes.subrange(
            low as int,
            high as int,
        ));
        CodebaseExcerpt { element_id, path, text: part.to_string(), score, expanded: false }
    }
}

/// A search result and what became of the attempt to read its file.
#[derive(PartialEq, Eq, Debug)]
pub struct LoadedResult {
    pub path: String,
    /// The byte range of the result, as it was when the file was indexed.
    pub start: usize,
    pub end: usize,
    /// How well the result fits the query, in decimal.
    pub score: String,
    /// The text of the file, or why it could not be read.
    pub text: Result<String, String>,
}

#[verifier::ext_equal]
pub struct LoadedResultView {
    pub path: Seq<char>,
    pub start: usize,
    pub end: usize,
    pub score: Seq<char>,
    pub text: Option<Seq<char>>,
}

impl DeepView for LoadedResult {
    type V = LoadedResultView;

    open spec fn deep_view(&self) -> LoadedResultView {
        LoadedResultView {
            path: self.path@,
            start: self.start,
            end: self.end,
            score: self.score@,
            text: match self.text {
                Ok(text) => Some(text@),
                Err(_) => None,
            },
        }
    }
}

/// The range of the result can be cut out of its file, if that could be read.
pub open spec fn is_cuttable(result: LoadedResultView) -> bool {
    result.text matches Some(text) ==> is_excerpt_range(text, result.start, result.end)
}

/// The result where its file could be read, as a sequence of at most one.
pub open spec fn readable_one() -> spec_fn(LoadedResultView) -> Seq<LoadedResultView> {
    |result: LoadedResultView|
        if result.text is Some {
            seq![result]
        } else {
            Seq::empty()
        }
}

/// The results whose files could be read, in order.
pub open spec fn readable(results: Seq<LoadedResultView>) -> Seq<LoadedResultView> {
    results.flat_map(readable_one())
}

/// The id is one that [`cut_excerpts`] gives.
pub open spec fn is_fresh_id(element_id: ElementIdView) -> bool {
    element_id matches ElementIdView::Name(name) && name.len() == ELEMENT_ID_LEN && forall|i: int|
        0 <= i < name.len() ==> is_url_safe(#[trigger] name[i])
}

/// The excerpt is the one that the result points at, folded.
pub open spec fn is_excerpt_of(excerpt: CodebaseExcerptView, result: LoadedResultView) -> bool {
    &&& excerpt.path == result.path
    &&& encode_utf8(excerpt.text) == excerpt_bytes(result.text->0, result.start, result.end)
    &&& excerpt.score == result.score
    &&& !excerpt.expanded
}

/// Cuts the excerpts out of the files that could be read, in the order of the search results. Each
/// gets the element id at its own place among `element_ids`.
pub fn cut_excerpts_with_ids(results: Vec<LoadedResult>, element_ids: &Vec<ElementId>) -> (excerpts:
    Vec<CodebaseExcerpt>)
    requires
        forall|i: int| 0 <= i < results.len() ==> is_cuttable(#[trigger] results.deep_view()[i]),
        element_ids.len() == readable(results.deep_view()).len(),
    ensures
        excerpts.len() == readable(results.deep_view()).len(),
        forall|k: int|
            0 <= k < excerpts.len() ==> is_excerpt_of(
                #[trigger] excerpts.deep_view()[k],
                readable(results.deep_view())[k],
            ),
        forall|k: int|
            0 <= k < excerpts.len() ==> (#[trigger] excerpts.deep_view()[k]).element_id
                == element_ids.deep_view()[k],
{
    let ghost given = results@;
    let ghost all = results.deep_view();
    let mut excerpts: Vec<CodebaseExcerpt> = Vec::new();
    assert(all.take(0).flat_map(readable_one()) =~= Seq::empty());
    for result in it: results
        invariant
            it.seq() == given,
            all == results.deep_view(),
            given == results@,
            forall|i: int| 0 <= i < all.len() ==> is_cuttable(#[trigger] all[i]),
            element_ids.len() == readable(all).len(),
            excerpts.len() == readable(all.take(it.index() as int)).len(),
            forall|k: int|
                0 <= k < excerpts.len() ==> is_excerpt_of(
                    #[trigger] excerpts.deep_view()[k],
                    readable(all.take(it.index() as int))[k],
                ) && excerpts.deep_view()[k].element_id == element_ids.deep_view()[k],
    {
        let ghost index = it.index() as int;
        let ghost before = excerpts.deep_view();
        let ghost seen = readable(all.take(index));
        proof {
            assert(all[index] == result.deep_view());
            all.lemma_flat_map_take_append(readable_one(), index);
            lemma_readable_of_prefix(all, index + 1);
        }
        match result.text {
            Ok(text) => {
                assert(readable(all.take(index + 1)) =~= seen.push(all[index]));
                let element_id = element_ids[excerpts.len()].clone();
                assert(element_id.deep_view() == element_ids.deep_view()[before.len() as int]);
                let excerpt = CodebaseExcerpt::with_element_id(
                    element_id,
                    result.path,
                    text.as_str(),
                    result.start,
                    result.end,
                    result.score,
                );
                let ghost added = excerpt.deep_view();
                excerpts.push(excerpt);
                proof {
                    let now = readable(all.take(index + 1));
                    assert(excerpts.deep_view() =~= before.push(added));
                    assert forall|k: int| 0 <= k < excerpts.len() implies is_excerpt_of(
                        #[trigger] excerpts.deep_view()[k],
                        now[k],
                    ) && excerpts.deep_view()[k].element_id == element_ids.deep_view()[k] by {
                        if k < before.len() {
                            assert(is_excerpt_of(before[k], seen[k]));
                        }
                    }
                }
            },
            Err(_) => {
                assert(readable(all.take(index + 1)) =~= seen);
            },
        }
    }
    assert(all.take(all.len() as int) =~= all);
    excerpts
}

/// A part of the results has no more readable files than the whole.
proof fn lemma_readable_of_prefix(results: Seq<LoadedResultView>, end: int)
    requires
        0 <= end <= results.len(),
    ensures
        readable(results.take(end)).len() <= readable(results).len(),
    decreases results.len() - end,
{
    if end == results.len() {
        assert(results.take(end) =~= results);
    } else {
        results.lemma_flat_map_take_append(readable_one(), end);
        lemma_readable_of_prefix(results, end + 1);
    }
}

/// Draws an element id for each result whose file could be read.
fn draw_ids(results: &Vec<LoadedResult>) -> (element_ids: Vec<ElementId>)
    ensures
        element_ids.len() == readable(results.deep_view()).len(),
        forall|k: int|
            0 <= k < element_ids.len() ==> is_fresh_id(#[trigger] element_ids.deep_view()[k]),
{
    let ghost all = results.deep_view();
    let mut element_ids: Vec<ElementId> = Vec::new();
    assert(all.take(0).flat_map(readable_one()) =~= Seq::empty());
    for i in 0..results.len()
        invariant
            all == results.deep_view(),
            element_ids.len() == readable(all.take(i as int)).len(),
            forall|k: int|
                0 <= k < element_ids.len() ==> is_fresh_id(#[trigger] element_ids.deep_view()[k]),
    {
        let ghost before = element_ids.deep_view();
        proof {
            assert(all[i as int] == results[i as int].deep_view());
            all.lemma_flat_map_take_append(readable_one(), i as int);
        }
        if results[i].text.is_ok() {
            let element_id = ElementId::Name(random_id(ELEMENT_ID_LEN));
            let ghost added = element_id.deep_view();
            element_ids.push(element_id);
            assert(element_ids.deep_view() =~= before.push(added));
        }
    }
    assert(all.take(all.len() as int) =~= all);
    element_ids
}

/// Cuts the excerpts out of the files that could be read, in the order of the search results. A
/// fresh element id is drawn for each excerpt. That the ids of two excerpts differ is left to
/// chance.
pub fn cut_excerpts(results: Vec<LoadedResult>) -> (excerpts: Vec<CodebaseExcerpt>)
    requires
        forall|i: int| 0 <= i < results.len() ==> is_cuttable(#[trigger] results.deep_view()[i]),
    ensures
        excerpts.len() == readable(results.deep_view()).len(),
        forall|k: int|
            0 <= k < excerpts.len() ==> is_excerpt_of(
                #[trigger] excerpts.deep_view()[k],
                readable(results.deep_view())[k],
            ),
        forall|k: int|
            0 <= k < excerpts.len() ==> is_fresh_id(
                (#[trigger] excerpts.deep_view()[k]).element_id,
            ),
{
    let element_ids = draw_ids(&results);
    cut_excerpts_with_ids(results, &element_ids)
}

/// A search of the codebase.
#[derive(PartialEq, Eq, Debug)]
pub struct SearchRequest {
    pub query: String,
    /// The greatest number of results that are wanted.
    pub limit: usize,
}

/// What to search for once the query is known. Without a query there is no search.
pub fn search_request(query: Result<String, String>) -> (request: Result<SearchRequest, String>)
    ensures
        match query {
            Ok(query) => request == Ok::<SearchRequest, String>(
                (SearchRequest { query, limit: SEARCH_LIMIT }),
            ),
            Err(error) => request == Err::<SearchRequest, String>(error),
        },
{
    match query {
        Ok(query) => Ok(SearchRequest { query, limit: SEARCH_LIMIT }),
        Err(error) => Err(error),
    }
}

/// Excerpts of the codebase for one user message.
#[derive(PartialEq, Eq, Debug)]
pub enum CodebaseContext {
    /// The search is still running.
    Pending,
    /// The search has ended, with excerpts or with the reason why there are none.
    Done(Result<Vec<CodebaseExcerpt>, String>),
}

#[verifier::ext_equal]
pub enum CodebaseContextView {
    Pending,
    Failed(Seq<char>),
    Found(Seq<CodebaseExcerptView>),
}

impl DeepView for CodebaseContext {
    type V = CodebaseContextView;

    open spec fn deep_view(&self) -> CodebaseContextView {
        match self {
            CodebaseContext::Pending => CodebaseContextView::Pending,
            CodebaseContext::Done(Err(error)) => CodebaseContextView::Failed(error@),
            CodebaseContext::Done(Ok(excerpts)) => CodebaseContextView::Found(
                excerpts.deep_view(),
            ),
        }
    }
}

/// What ends the last line of a text, unless a line end is there already.
pub open spec fn line_end(text: Seq<char>) -> Seq<char> {
    if text.len() > 0 && text.last() == '\n' {
        Seq::empty()
    } else {
        "\n"@
    }
}

/// A text between two fences, each on a line of its own.
pub open spec fn fenced(text: Seq<char>) -> Seq<char> {
    "~~~\n"@ + text + line_end(text) + "~~~\n"@
}

/// Appends a text between two fences.
fn append_fenced(body: &mut String, text: &str)
    ensures
        final(body)@ == old(body)@ + fenced(text@),
{
    body.append("~~~\n");
    body.append(text);
    let len: usize = text.unicode_len();
    if len == 0 || text.get_char(len - 1) != '\n' {
        body.append("\n");
    }
    body.append("~~~\n");
    assert(body@ =~= old(body)@ + fenced(text@));
}

/// What the model reads of one excerpt.
pub open spec fn excerpt_text(excerpt: CodebaseExcerptView) -> Seq<char> {
    "Excerpt from "@ + excerpt.path + ", score "@ + excerpt.score + ":\n"@ + fenced(excerpt.text)
}

/// [`excerpt_text`] as a value.
pub open spec fn excerpt_texts() -> spec_fn(CodebaseExcerptView) -> Seq<char> {
    |excerpt: CodebaseExcerptView| excerpt_text(excerpt)
}

/// The first excerpt with this element id.
pub open spec fn excerpt_position(
    excerpts: Seq<CodebaseExcerptView>,
    element_id: ElementIdView,
) -> Option<int> {
    first_index(excerpts, |excerpt: CodebaseExcerptView| excerpt.element_id == element_id)
}

impl CodebaseContextView {
    /// What the model is told: one system message for the whole batch of excerpts, and nothing
    /// where there are none.
    pub open spec fn completion_messages(self) -> Seq<CompletionMessageView> {
        match self {
            CodebaseContextView::Found(excerpts) => if excerpts.len() == 0 {
                Seq::empty()
            } else {
                seq![
                    CompletionMessageView::System {
                        content: "Semantic search results for user query:\n"@ + excerpts.flat_map(
                            excerpt_texts(),
                        ),
                    },
                ]
            },
            _ => Seq::empty(),
        }
    }

    /// Some excerpt has this element id.
    pub open spec fn shows(self, element_id: ElementIdView) -> bool {
        self matches CodebaseContextView::Found(excerpts) && excerpt_position(
            excerpts,
            element_id,
        ) is Some
    }

    /// The first excerpt with this element id is folded where it was unfolded, and unfolded where
    /// it was folded.
    pub open spec fn toggled(self, element_id: ElementIdView) -> Self {
        match self {
            CodebaseContextView::Found(excerpts) => match excerpt_position(excerpts, element_id) {
                Some(index) => CodebaseContextView::Found(
                    excerpts.update(
                        index,
                        CodebaseExcerptView {
                            expanded: !excerpts[index].expanded,
                            ..excerpts[index]
                        },
                    ),
                ),
                None => self,
            },
            _ => self,
        }
    }
}

/// Finds the first excerpt with this element id.
fn position_of_excerpt(excerpts: &Vec<CodebaseExcerpt>, element_id: &ElementId) -> (position: Option<
    usize,
>)
    ensures
        match position {
            Some(index) => index < excerpts.len() && excerpt_position(
                excerpts.deep_view(),
                element_id.deep_view(),
            ) == Some(index as int),
            None => excerpt_position(excerpts.deep_view(), element_id.deep_view()) is None,
        },
{
    let ghost all = excerpts.deep_view();
    let ghost wanted = element_id.deep_view();
    for index in 0..excerpts.len()
        invariant
            all == excerpts.deep_view(),
            wanted == element_id.deep_view(),
            forall|j: int| 0 <= j < index ==> (#[trigger] all[j]).element_id != wanted,
    {
        assert(all[index as int] == excerpts[index as int].deep_view());
        if excerpts[index].element_id.same(element_id) {
            proof {
                lemma_first_index_at(
                    all,
                    |excerpt: CodebaseExcerptView| excerpt.element_id == wanted,
                    index as int,
                );
            }
            return Some(index);
        }
    }
    proof {
        lemma_first_index(all, |excerpt: CodebaseExcerptView| excerpt.element_id == wanted);
    }
    None
}

impl CodebaseContext {
    /// A context whose search has just been started.
    pub fn new() -> (context: Self)
        ensures
            context.deep_view() == CodebaseContextView::Pending,
    {
        CodebaseContext::Pending
    }

    /// Ends the search. Returns whether it succeeded.
    pub fn populate(
        &mut self,
        result: Result<Vec<CodebaseExcerpt>, String>,
        cx: &mut ViewContext,
    ) -> (success: bool)
        ensures
            success == result is Ok,
            final(self).deep_view() == match result {
                Ok(excerpts) => CodebaseContextView::Found(excerpts.deep_view()),
                Err(error) => CodebaseContextView::Failed(error@),
            },
            final(cx).adds(*old(cx), seq![Effect::Notify]),
    {
        let success = result.is_ok();
        *self = CodebaseContext::Done(result);
        cx.notify();
        success
    }

    /// Folds or unfolds an excerpt.
    pub fn toggle_expanded(&mut self, element_id: ElementId, cx: &mut ViewContext)
        ensures
            final(self).deep_view() == old(self).deep_view().toggled(element_id.deep_view()),
            final(cx).adds(
                *old(cx),
                if old(self).deep_view().shows(element_id.deep_view()) {
                    seq![Effect::Notify]
                } else {
                    Seq::empty()
                },
            ),
    {
        let mut shown = false;
        if let CodebaseContext::Done(Ok(excerpts)) = self {
            if let Some(index) = position_of_excerpt(excerpts, &element_id) {
                let ghost all = excerpts.deep_view();
                let excerpt = &mut excerpts[index];
                excerpt.expanded = !excerpt.expanded;
                shown = true;
                assert(excerpts.deep_view() =~= all.update(
                    index as int,
                    CodebaseExcerptView { expanded: !all[index as int].expanded, ..all[index as int] },
                ));
            }
        }
        if shown {
            cx.notify();
        } else {
            assert(cx.effects@ =~= old(cx).effects@ + Seq::empty());
        }
    }

    /// What the model is told of the excerpts.
    pub fn completion_messages(&self) -> (messages: Vec<CompletionMessage>)
        ensures
            messages.deep_view() == self.deep_view().completion_messages(),
    {
        let mut messages: Vec<CompletionMessage> = Vec::new();
        assert(messages.deep_view() =~= Seq::empty());
        match self {
            CodebaseContext::Done(Ok(excerpts)) => {
                if excerpts.is_empty() {
                    return messages;
                }
                let ghost all = excerpts.deep_view();
                let ghost header = "Semantic search results for user query:\n"@;
                let mut body = "Semantic search results for user query:\n".to_string();
                assert(all.take(0).flat_map(excerpt_texts()) =~= Seq::empty());
                assert(body@ =~= header + all.take(0).flat_map(excerpt_texts()));
                for index in 0..excerpts.len()
                    invariant
                        all == excerpts.deep_view(),
                        body@ == header + all.take(index as int).flat_map(excerpt_texts()),
                {
                    let ghost before = body@;
                    let excerpt = &excerpts[index];
                    assert(all[index as int] == excerpt.deep_view());
                    body.append("Excerpt from ");
                    body.append(excerpt.path.as_str());
                    body.append(", score ");
                    body.append(excerpt.score.as_str());
                    body.append(":\n");
                    append_fenced(&mut body, excerpt.text.as_str());
                    proof {
                        all.lemma_flat_map_take_append(excerpt_texts(), index as int);
                        assert(body@ =~= before + excerpt_text(excerpt.deep_view()));
                    }
                }
                assert(all.take(all.len() as int) =~= all);
                messages.push(CompletionMessage::System { content: body });
                assert(messages.deep_view() =~= self.deep_view().completion_messages());
                messages
            },
            _ => messages,
        }
    }
}

impl FileContextView {
    /// What the model reads of the file.
    pub open spec fn told(self) -> Seq<char> {
        "Current file "@ + self.path + ":\n"@ + fenced(self.text)
    }

    /// What the model is told: one system message with the whole text.
    pub open spec fn completion_messages(self) -> Seq<CompletionMessageView> {
        seq![CompletionMessageView::System { content: self.told() }]
    }
}

impl FileContext {
    /// What the model is told of the file.
    pub fn completion_messages(&self) -> (messages: Vec<CompletionMessage>)
        ensures
            messages.deep_view() == self.deep_view().completion_messages(),
    {
        let mut content = "Current file ".to_string();
        content.append(self.path.as_str());
        content.append(":\n");
        append_fenced(&mut content, self.text.as_str());
        let mut messages: Vec<CompletionMessage> = Vec::new();
        messages.push(CompletionMessage::System { content });
        assert(messages.deep_view() =~= self.deep_view().completion_messages());
        messages
    }
}

/// Something that the model is told ahead of a user message.
#[derive(PartialEq, Eq, Debug)]
pub enum AssistantContext {
    /// Excerpts of the codebase.
    Codebase(CodebaseContext),
    /// The file that was current when the message was submitted.
    File(FileContext),
}

#[verifier::ext_equal]
pub enum AssistantContextView {
    Codebase(CodebaseContextView),
    File(FileContextView),
}

impl DeepView for AssistantContext {
    type V = AssistantContextView;

    open spec fn deep_view(&self) -> AssistantContextView {
        match self {
            AssistantContext::Codebase(context) => AssistantContextView::Codebase(
                context.deep_view(),
            ),
            AssistantContext::File(file) => AssistantContextView::File(file.deep_view()),
        }
    }
}

impl AssistantContextView {
    pub open spec fn completion_messages(self) -> Seq<CompletionMessageView> {
        match self {
            AssistantContextView::Codebase(context) => context.completion_messages(),
            AssistantContextView::File(file) => file.completion_messages(),
        }
    }
}

impl AssistantContext {
    /// What the model is told of this context.
    pub fn completion_messages(&self) -> (messages: Vec<CompletionMessage>)
        ensures
            messages.deep_view() == self.deep_view().completion_messages(),
    {
        match self {
            AssistantContext::Codebase(context) => context.completion_messages(),
            AssistantContext::File(file) => file.completion_messages(),
        }
    }
}

/// The context unless it is a file, as a sequence of at most one.
pub open spec fn unless_file() -> spec_fn(AssistantContextView) -> Seq<AssistantContextView> {
    |context: AssistantContextView|
        if context is File {
            Seq::empty()
        } else {
            seq![context]
        }
}

/// The contexts that are no files, in order.
pub open spec fn without_files(contexts: Seq<AssistantContextView>) -> Seq<AssistantContextView> {
    contexts.flat_map(unless_file())
}

/// The file as a sequence of at most one context.
pub open spec fn file_contexts(file: Option<FileContextView>) -> Seq<AssistantContextView> {
    match file {
        Some(file) => seq![AssistantContextView::File(file)],
        None => Seq::empty(),
    }
}

/// Puts a file, or none, in the place of the files among the contexts.
pub fn replace_file(contexts: Vec<AssistantContext>, file: Option<FileContext>) -> (res: Vec<
    AssistantContext,
>)
    ensures
        res.deep_view() == without_files(contexts.deep_view()) + file_contexts(file.deep_view()),
{
    let ghost given = contexts@;
    let ghost all = contexts.deep_view();
    let mut res: Vec<AssistantContext> = Vec::new();
    assert(all.take(0).flat_map(unless_file()) =~= Seq::empty());
    assert(res.deep_view() =~= Seq::empty());
    for context in it: contexts
        invariant
            it.seq() == given,
            given == contexts@,
            all == contexts.deep_view(),
            res.deep_view() == all.take(it.index() as int).flat_map(unless_file()),
    {
        let ghost before = res.deep_view();
        let ghost index = it.index() as int;
        proof {
            assert(all[index] == context.deep_view());
            all.lemma_flat_map_take_append(unless_file(), index);
        }
        match context {
            AssistantContext::File(_) => {
                assert(before =~= before + Seq::empty());
            },
            AssistantContext::Codebase(codebase) => {
                let kept = AssistantContext::Codebase(codebase);
                let ghost added = kept.deep_view();
                res.push(kept);
                assert(res.deep_view() =~= before + seq![added]);
            },
        }
    }
    assert(all.take(all.len() as int) =~= all);
    let ghost kept = res.deep_view();
    match file {
        Some(file) => {
            let context = AssistantContext::File(file);
            let ghost added = context.deep_view();
            res.push(context);
            assert(res.deep_view() =~= kept + seq![added]);
        },
        None => {
            assert(kept =~= kept + Seq::empty());
        },
    }
    res
}

} // verus!
