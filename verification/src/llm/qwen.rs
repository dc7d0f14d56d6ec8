//! Template of the Qwen family.

use crate::llm::{PromptTemplate, TemplateView};
use vstd::prelude::*;

verus! {

/// The template of Qwen chat models: turns are written as
/// `<|im_start|>role`, a line feed, the message and `<|im_end|>` with
/// another line feed; a turn ends at `<|im_end|>`.
pub fn qwen_prompt_template() -> (template: PromptTemplate)
    ensures
        template@ == (TemplateView {
            header_prefix: "<|im_start|>"@,
            header_suffix: "\n"@,
            end_of_content: "<|im_end|>\n"@,
            stops: seq!["<|im_end|>"@],
        }),
        template@.valid(),
{
    let template = PromptTemplate {
        header_prefix: "<|im_start|>".to_owned(),
        header_suffix: "\n".to_owned(),
        end_of_content: "<|im_end|>\n".to_owned(),
        stops: vec!["<|im_end|>".to_owned()],
    };
    assert(template@.stops =~= seq!["<|im_end|>"@]);
    template
}

} // verus!
