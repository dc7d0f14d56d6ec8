//! Template of the Gemma 2 family.

use crate::llm::{PromptTemplate, TemplateView};
use vstd::prelude::*;

verus! {

/// The template of Gemma 2 models: turns are written as
/// `<start_of_turn>role`, a line feed, the message and `<end_of_turn>`; a
/// turn ends at `<end_of_turn>`.
pub fn gemma2_prompt_template() -> (template: PromptTemplate)
    ensures
        template@ == (TemplateView {
            header_prefix: "<start_of_turn>"@,
            header_suffix: "\n"@,
            end_of_content: "<end_of_turn>"@,
            stops: seq!["<end_of_turn>"@],
        }),
        template@.valid(),
{
    let template = PromptTemplate {
        header_prefix: "<start_of_turn>".to_owned(),
        header_suffix: "\n".to_owned(),
        end_of_content: "<end_of_turn>".to_owned(),
        stops: vec!["<end_of_turn>".to_owned()],
    };
    assert(template@.stops =~= seq!["<end_of_turn>"@]);
    template
}

} // verus!
