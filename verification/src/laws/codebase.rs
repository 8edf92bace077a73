//! What the model is told of the codebase: excerpts, and the current file.

use vstd::prelude::*;
use vstd::utf8::{encode_utf8, is_char_boundary};

use crate::codebase::{
    excerpt_position, excerpt_text, excerpt_texts, fenced, is_cuttable, is_excerpt_of,
    is_excerpt_range, is_fresh_id, is_url_safe, readable, readable_one, unless_file, without_files,
    AssistantContextView, CodebaseContextView, CodebaseExcerptView, ElementIdView,
    LoadedResultView,
};
use crate::completion::CompletionMessageView;
use crate::context::FileContextView;
use crate::search::{lemma_first_index, lemma_first_index_at};

verus! {

/// The part stands in the whole, `start` characters from its beginning.
pub open spec fn text_at(whole: Seq<char>, start: int, part: Seq<char>) -> bool {
    0 <= start <= whole.len() - part.len() && whole.subrange(start, start + part.len()) == part
}

/// The part stands somewhere in the whole.
pub open spec fn contains_text(whole: Seq<char>, part: Seq<char>) -> bool {
    exists|start: int| text_at(whole, start, part)
}

/// A text that does not end in a line end gets one, so that the closing fence has a line of its
/// own. Any other text is fenced as it is.
pub proof fn law_fences_stand_alone(text: Seq<char>)
    ensures
        text.len() > 0 && text.last() == '\n' ==> fenced(text) == "~~~\n"@ + text + "~~~\n"@,
        text.len() == 0 || text.last() != '\n' ==> fenced(text) == "~~~\n"@ + text + "\n~~~\n"@,
{
    reveal_strlit("\n");
    reveal_strlit("~~~\n");
    reveal_strlit("\n~~~\n");
    if text.len() > 0 && text.last() == '\n' {
        assert(fenced(text) =~= "~~~\n"@ + text + "~~~\n"@);
    } else {
        assert(fenced(text) =~= "~~~\n"@ + text + "\n~~~\n"@);
    }
}

/// The model is told the whole text of a file, between fences.
pub proof fn law_file_is_told_whole(file: FileContextView)
    ensures
        contains_text(file.told(), fenced(file.text)),
        contains_text(file.told(), file.text),
{
    let head = "Current file "@ + file.path + ":\n"@;
    let fence = head.len() as int;
    assert(file.told().subrange(fence, fence + fenced(file.text).len()) =~= fenced(file.text));
    assert(text_at(file.told(), fence, fenced(file.text)));
    let start = fence + "~~~\n"@.len();
    assert(file.told().subrange(start, start + file.text.len()) =~= file.text);
    assert(text_at(file.told(), start, file.text));
}

/// The model is told the whole text of every excerpt, between fences.
pub proof fn law_excerpts_are_told_whole(excerpts: Seq<CodebaseExcerptView>, i: int)
    requires
        0 <= i < excerpts.len(),
    ensures
        CodebaseContextView::Found(excerpts).completion_messages()[0] matches
            CompletionMessageView::System { content } && contains_text(
            content,
            fenced(excerpts[i].text),
        ),
{
    let header = "Semantic search results for user query:\n"@;
    let first = excerpts.take(i);
    let one = first.push(excerpts[i]);
    let rest = excerpts.skip(i + 1);
    let content = header + excerpts.flat_map(excerpt_texts());
    first.lemma_flat_map_push(excerpt_texts(), excerpts[i]);
    assert(excerpts =~= one + rest);
    law_excerpts_in_order(one, rest);
    let text = fenced(excerpts[i].text);
    let start = header.len() + first.flat_map(excerpt_texts()).len() + excerpt_text(
        excerpts[i],
    ).len() - text.len();
    assert(content.subrange(start, start + text.len()) =~= text);
    assert(text_at(content, start, text));
}

/// Folding an excerpt and unfolding it again changes nothing.
pub proof fn law_toggle_twice(context: CodebaseContextView, element_id: ElementIdView)
    ensures
        context.toggled(element_id).toggled(element_id) == context,
        context.toggled(element_id).shows(element_id) == context.shows(element_id),
{
    if let CodebaseContextView::Found(excerpts) = context {
        let pred = |excerpt: CodebaseExcerptView| excerpt.element_id == element_id;
        lemma_first_index(excerpts, pred);
        if let Some(index) = excerpt_position(excerpts, element_id) {
            let flipped = CodebaseExcerptView {
                expanded: !excerpts[index].expanded,
                ..excerpts[index]
            };
            let once = excerpts.update(index, flipped);
            lemma_first_index_at(once, pred, index);
            assert(once.update(index, excerpts[index]) =~= excerpts);
        }
    }
}

/// The model is told the same whether an excerpt is folded or not.
pub proof fn law_toggle_tells_the_same(context: CodebaseContextView, element_id: ElementIdView)
    ensures
        context.toggled(element_id).completion_messages() == context.completion_messages(),
{
    if let CodebaseContextView::Found(excerpts) = context {
        lemma_first_index(
            excerpts,
            |excerpt: CodebaseExcerptView| excerpt.element_id == element_id,
        );
        if let Some(index) = excerpt_position(excerpts, element_id) {
            let flipped = CodebaseExcerptView {
                expanded: !excerpts[index].expanded,
                ..excerpts[index]
            };
            assert(excerpts.update(index, flipped).map_values(excerpt_texts())
                =~= excerpts.map_values(excerpt_texts()));
        }
    }
}

/// There is one system message for the whole batch of excerpts, and none without excerpts.
pub proof fn law_one_message_for_all_excerpts(context: CodebaseContextView)
    ensures
        context.completion_messages().len() == if context matches CodebaseContextView::Found(
            excerpts,
        ) && excerpts.len() > 0 {
            1int
        } else {
            0
        },
        forall|i: int|
            0 <= i < context.completion_messages().len()
                ==> #[trigger] context.completion_messages()[i] is System,
{
}

/// The excerpts of two batches together read as those of the first followed by those of the second.
pub proof fn law_excerpts_in_order(
    first: Seq<CodebaseExcerptView>,
    second: Seq<CodebaseExcerptView>,
)
    ensures
        (first + second).flat_map(excerpt_texts()) == first.flat_map(excerpt_texts())
            + second.flat_map(excerpt_texts()),
    decreases second.len(),
{
    if second.len() == 0 {
        assert(first + second =~= first);
        assert(second.flat_map(excerpt_texts()) =~= Seq::empty());
        assert(first.flat_map(excerpt_texts()) + Seq::empty() =~= first.flat_map(excerpt_texts()));
    } else {
        let init = second.drop_last();
        law_excerpts_in_order(first, init);
        assert(first + second =~= (first + init).push(second.last()));
        assert(second =~= init.push(second.last()));
        (first + init).lemma_flat_map_push(excerpt_texts(), second.last());
        init.lemma_flat_map_push(excerpt_texts(), second.last());
        assert((first + second).flat_map(excerpt_texts()) =~= first.flat_map(excerpt_texts())
            + second.flat_map(excerpt_texts()));
    }
}

/// The system message about excerpts has a heading and then, for each excerpt in order, a line with
/// its path and its score and its text between fences, the closing one on a line of its own.
/// Without excerpts, and before a search has found any, there is no message.
pub proof fn law_excerpts_are_told_one_by_one(
    excerpts: Seq<CodebaseExcerptView>,
    excerpt: CodebaseExcerptView,
    error: Seq<char>,
)
    ensures
        ({
            let text = excerpt.text;
            let heading = "Semantic search results for user query:\n"@;
            let before = CodebaseContextView::Found(excerpts).completion_messages();
            let after = CodebaseContextView::Found(excerpts.push(excerpt)).completion_messages();
            &&& CodebaseContextView::Pending.completion_messages().len() == 0
            &&& CodebaseContextView::Failed(error).completion_messages().len() == 0
            &&& excerpts.len() == 0 ==> before.len() == 0
            &&& excerpts.len() > 0 ==> before.len() == 1
            &&& after.len() == 1
            &&& after[0] matches CompletionMessageView::System { content } && content == (
            if excerpts.len() == 0 {
                heading
            } else {
                before[0]->System_content
            }) + ("Excerpt from "@ + excerpt.path + ", score "@ + excerpt.score + ":\n"@ + "~~~\n"@
                + text + if text.len() > 0 && text[text.len() - 1] == '\n' {
                "~~~\n"@
            } else {
                "\n~~~\n"@
            })
        }),
{
    let text = excerpt.text;
    law_fences_stand_alone(text);
    excerpts.lemma_flat_map_push(excerpt_texts(), excerpt);
    let heading = "Semantic search results for user query:\n"@;
    let told = "Excerpt from "@ + excerpt.path + ", score "@ + excerpt.score + ":\n"@ + "~~~\n"@
        + text + if text.len() > 0 && text[text.len() - 1] == '\n' {
        "~~~\n"@
    } else {
        "\n~~~\n"@
    };
    assert(told =~= excerpt_text(excerpt));
    if excerpts.len() == 0 {
        assert(excerpts.flat_map(excerpt_texts()) =~= Seq::empty());
    }
    assert(heading + excerpts.push(excerpt).flat_map(excerpt_texts()) =~= heading
        + excerpts.flat_map(excerpt_texts()) + told);
    assert(heading + Seq::empty() =~= heading);
}

/// The system message about a file names its path and gives its text between fences, the closing
/// one on a line of its own.
pub proof fn law_file_is_told(file: FileContextView)
    ensures
        ({
            let text = file.text;
            let told = AssistantContextView::File(file).completion_messages();
            &&& told.len() == 1
            &&& told[0] matches CompletionMessageView::System { content } && content
                == "Current file "@ + file.path + ":\n"@ + "~~~\n"@ + text + if text.len() > 0
                && text[text.len() - 1] == '\n' {
                "~~~\n"@
            } else {
                "\n~~~\n"@
            }
        }),
{
    let text = file.text;
    law_fences_stand_alone(text);
    assert(file.told() =~= "Current file "@ + file.path + ":\n"@ + "~~~\n"@ + text + if text.len()
        > 0 && text[text.len() - 1] == '\n' {
        "~~~\n"@
    } else {
        "\n~~~\n"@
    });
}

/// A context of excerpts tells what the excerpts tell.
pub proof fn law_excerpts_are_a_context(context: CodebaseContextView)
    ensures
        AssistantContextView::Codebase(context).completion_messages()
            == context.completion_messages(),
{
}

/// A click on an excerpt turns the first excerpt with that id from folded to unfolded or back, and
/// changes nothing else of it and no other excerpt.
pub proof fn law_click_turns_one_excerpt(
    excerpts: Seq<CodebaseExcerptView>,
    index: int,
)
    requires
        0 <= index < excerpts.len(),
        forall|j: int|
            0 <= j < index ==> (#[trigger] excerpts[j]).element_id != excerpts[index].element_id,
    ensures
        ({
            let context = CodebaseContextView::Found(excerpts);
            let id = excerpts[index].element_id;
            &&& context.shows(id)
            &&& context.toggled(id) matches CodebaseContextView::Found(after) && {
                &&& after.len() == excerpts.len()
                &&& after[index].expanded == !excerpts[index].expanded
                &&& after[index].element_id == id
                &&& after[index].path == excerpts[index].path
                &&& after[index].text == excerpts[index].text
                &&& after[index].score == excerpts[index].score
                &&& forall|j: int|
                    0 <= j < excerpts.len() && j != index ==> #[trigger] after[j] == excerpts[j]
            }
        }),
{
    let id = excerpts[index].element_id;
    lemma_first_index_at(
        excerpts,
        |excerpt: CodebaseExcerptView| excerpt.element_id == id,
        index,
    );
}

/// A click on what is not shown changes nothing.
pub proof fn law_click_beside_the_excerpts(
    context: CodebaseContextView,
    element_id: ElementIdView,
)
    requires
        context matches CodebaseContextView::Found(excerpts) ==> forall|j: int|
            0 <= j < excerpts.len() ==> (#[trigger] excerpts[j]).element_id != element_id,
    ensures
        !context.shows(element_id),
        context.toggled(element_id) == context,
{
    if let CodebaseContextView::Found(excerpts) = context {
        lemma_first_index(
            excerpts,
            |excerpt: CodebaseExcerptView| excerpt.element_id == element_id,
        );
    }
}

/// The results with readable files are those where the text is there, in order: none of two batches
/// is lost or moved, and one result is kept exactly where its file could be read.
pub proof fn law_readable_results_in_order(
    first: Seq<LoadedResultView>,
    second: Seq<LoadedResultView>,
    result: LoadedResultView,
)
    ensures
        readable(first + second) == readable(first) + readable(second),
        result.text is Some ==> readable(seq![result]) == seq![result],
        result.text is None ==> readable(seq![result]) == Seq::<LoadedResultView>::empty(),
    decreases second.len(),
{
    let none = Seq::<LoadedResultView>::empty();
    assert(readable(none) =~= Seq::empty());
    none.lemma_flat_map_push(readable_one(), result);
    assert(none.push(result) =~= seq![result]);
    if result.text is Some {
        assert(readable(seq![result]) =~= seq![result]);
    } else {
        assert(readable(seq![result]) =~= Seq::<LoadedResultView>::empty());
    }
    if second.len() == 0 {
        assert(first + second =~= first);
        assert(second =~= none);
        assert(readable(first) + Seq::empty() =~= readable(first));
    } else {
        let init = second.drop_last();
        law_readable_results_in_order(first, init, result);
        assert(first + second =~= (first + init).push(second.last()));
        assert(second =~= init.push(second.last()));
        (first + init).lemma_flat_map_push(readable_one(), second.last());
        init.lemma_flat_map_push(readable_one(), second.last());
        assert(readable(first + second) =~= readable(first) + readable(second));
    }
}

/// An excerpt of a result has the path and the score of the result, is folded, and has the bytes of
/// the file from the start of the range to its end. A range that runs past the end of the file is
/// cut there.
pub proof fn law_excerpt_is_cut_from_its_file(
    excerpt: CodebaseExcerptView,
    result: LoadedResultView,
    text: Seq<char>,
)
    requires
        result.text == Some(text),
        is_excerpt_of(excerpt, result),
    ensures
        ({
            let bytes = encode_utf8(text);
            let start = result.start as int;
            let end = result.end as int;
            &&& excerpt.path == result.path
            &&& excerpt.score == result.score
            &&& !excerpt.expanded
            &&& start <= end <= bytes.len() ==> encode_utf8(excerpt.text) == bytes.subrange(
                start,
                end,
            )
            &&& start <= bytes.len() <= end ==> encode_utf8(excerpt.text) == bytes.subrange(
                start,
                bytes.len() as int,
            )
            &&& bytes.len() <= start && bytes.len() <= end ==> encode_utf8(excerpt.text).len() == 0
        }),
{
}

/// A range can be cut out exactly where, after it is cut to the length of the file, it does not run
/// backwards and begins and ends between characters.
pub proof fn law_range_holds_whole_characters(text: Seq<char>, start: usize, end: usize)
    ensures
        ({
            let bytes = encode_utf8(text);
            let low = if start < bytes.len() {
                start as int
            } else {
                bytes.len() as int
            };
            let high = if end < bytes.len() {
                end as int
            } else {
                bytes.len() as int
            };
            is_excerpt_range(text, start, end) == (low <= high && is_char_boundary(bytes, low)
                && is_char_boundary(bytes, high))
        }),
{
}

/// Only the range of a result whose file could be read has to fit.
pub proof fn law_unreadable_results_are_cuttable(result: LoadedResultView)
    ensures
        result.text is None ==> is_cuttable(result),
        result.text matches Some(text) ==> is_cuttable(result) == is_excerpt_range(
            text,
            result.start,
            result.end,
        ),
{
}

/// A fresh id is a name of 21 characters, each a letter or a digit of ASCII, `_` or `-`.
pub proof fn law_fresh_ids_are_url_safe(element_id: ElementIdView)
    requires
        is_fresh_id(element_id),
    ensures
        element_id matches ElementIdView::Name(name) && {
            &&& name.len() == 21
            &&& forall|i: int|
                0 <= i < name.len() ==> {
                    let c = #[trigger] name[i];
                    c == '_' || c == '-' || '0' <= c <= '9' || 'a' <= c <= 'z' || 'A' <= c <= 'Z'
                }
        },
{
    let name = element_id->Name_0;
    assert forall|i: int| 0 <= i < name.len() implies {
        let c = #[trigger] name[i];
        c == '_' || c == '-' || '0' <= c <= '9' || 'a' <= c <= 'z' || 'A' <= c <= 'Z'
    } by {
        assert(is_url_safe(name[i]));
    }
}

/// Taking the files out of the contexts takes out every file, and leaves every batch of excerpts at
/// its place among the others.
pub proof fn law_only_files_are_taken_out(
    first: Seq<AssistantContextView>,
    second: Seq<AssistantContextView>,
    file: FileContextView,
    excerpts: CodebaseContextView,
)
    ensures
        without_files(first + second) == without_files(first) + without_files(second),
        without_files(seq![AssistantContextView::File(file)]) == Seq::<
            AssistantContextView,
        >::empty(),
        without_files(seq![AssistantContextView::Codebase(excerpts)]) == seq![
            AssistantContextView::Codebase(excerpts),
        ],
    decreases second.len(),
{
    let none = Seq::<AssistantContextView>::empty();
    assert(without_files(none) =~= Seq::empty());
    none.lemma_flat_map_push(unless_file(), AssistantContextView::File(file));
    none.lemma_flat_map_push(unless_file(), AssistantContextView::Codebase(excerpts));
    assert(none.push(AssistantContextView::File(file)) =~= seq![AssistantContextView::File(file)]);
    assert(none.push(AssistantContextView::Codebase(excerpts)) =~= seq![
        AssistantContextView::Codebase(excerpts),
    ]);
    assert(without_files(seq![AssistantContextView::File(file)]) =~= Seq::<
        AssistantContextView,
    >::empty());
    assert(without_files(seq![AssistantContextView::Codebase(excerpts)]) =~= seq![
        AssistantContextView::Codebase(excerpts),
    ]);
    if second.len() == 0 {
        assert(first + second =~= first);
        assert(second =~= none);
        assert(without_files(first) + Seq::empty() =~= without_files(first));
    } else {
        let init = second.drop_last();
        law_only_files_are_taken_out(first, init, file, excerpts);
        assert(first + second =~= (first + init).push(second.last()));
        assert(second =~= init.push(second.last()));
        (first + init).lemma_flat_map_push(unless_file(), second.last());
        init.lemma_flat_map_push(unless_file(), second.last());
        assert(without_files(first + second) =~= without_files(first) + without_files(second));
    }
}

} // verus!
