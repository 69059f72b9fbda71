//! The prompt assembler: templates with named variables in braces, rendered
//! into role-tagged messages for the completion endpoint.

use vstd::prelude::*;
use crate::text::{replace_all, spec_replace};

verus! {

/// A role-tagged prompt message. The role is `"system"` or `"user"`; the
/// order of messages in a list is the conversation order and is preserved.
pub struct Message {
    pub role: String,
    pub content: String,
}

/// The pattern that marks a variable in a template: the name in braces.
pub open spec fn brace(name: Seq<char>) -> Seq<char> {
    "{"@ + name + "}"@
}

/// The template with the variables substituted one after the other, in the
/// order they were added: every occurrence of a variable's braced name is
/// replaced by its value. A braced name bound by no variable stays literal.
pub open spec fn spec_render(t: Seq<char>, vars: Seq<(String, String)>) -> Seq<char>
    decreases vars.len(),
{
    if vars.len() == 0 {
        t
    } else {
        spec_render(spec_replace(t, brace(vars[0].0@), vars[0].1@), vars.skip(1))
    }
}

/// A prompt template with a role and named substitution variables.
pub struct Prompt {
    pub template: String,
    pub role: String,
    pub variables: Vec<(String, String)>,
}

/// The variable's name wrapped in braces.
fn brace_pattern(name: &String) -> (r: String)
    ensures
        r@ == brace(name@),
{
    let mut out = String::from_str("{");
    out.append(name.as_str());
    out.append("}");
    out
}

impl Prompt {
    pub fn new(template: String, role: String) -> (r: Prompt)
        ensures
            r.template@ == template@,
            r.role@ == role@,
            r.variables@.len() == 0,
    {
        Prompt { template, role, variables: Vec::new() }
    }

    pub fn add_variable(self, name: String, value: String) -> (r: Prompt)
        ensures
            r.template@ == self.template@,
            r.role@ == self.role@,
            r.variables@ == self.variables@.push((name, value)),
    {
        let mut vars = self.variables;
        vars.push((name, value));
        Prompt { template: self.template, role: self.role, variables: vars }
    }

    /// Renders the template into a message of the prompt's role.
    pub fn to_message(&self) -> (m: Message)
        ensures
            m.role@ == self.role@,
            m.content@ == spec_render(self.template@, self.variables@),
    {
        let mut content = String::from_str(self.template.as_str());
        let k = self.variables.len();
        let mut i: usize = 0;
        proof {
            assert(self.variables@.skip(0) =~= self.variables@);
        }
        while i < k
            invariant
                k == self.variables@.len(),
                i <= k,
                spec_render(content@, self.variables@.skip(i as int)) == spec_render(
                    self.template@,
                    self.variables@,
                ),
            decreases k - i,
        {
            let pat = brace_pattern(&self.variables[i].0);
            content = replace_all(content.as_str(), pat.as_str(), self.variables[i].1.as_str());
            proof {
                assert(self.variables@.skip(i as int).skip(1) =~= self.variables@.skip(i + 1));
            }
            i += 1;
        }
        Message { role: String::from_str(self.role.as_str()), content }
    }
}

} // verus!
