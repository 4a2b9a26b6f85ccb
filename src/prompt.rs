use vstd::prelude::*;
use vstd::string::StringExecFns;

verus! {

/// The chat-turn template around a user message.
pub open spec fn chat_template(input: Seq<char>) -> Seq<char> {
    "<|im_start|>user\n"@ + input + "<|im_end|>\n<|im_start|>assistant\n"@
}

/// Wraps the raw user input in the chat-turn template that the model expects.
pub fn chat_prompt(input: &str) -> (r: String)
    ensures
        r@ == chat_template(input@),
{
    let head = <String as StringExecFns>::from_str("<|im_start|>user\n");
    let mut r = head.concat(input);
    r.append("<|im_end|>\n<|im_start|>assistant\n");
    r
}

} // verus!
