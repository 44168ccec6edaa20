//! A greeting in the name of a project.
//!
//! The crate offers one function, [`hello`], which returns a fixed text. The
//! text is described by the spec functions below, and `hello` is proved to
//! return exactly that text.

use vstd::prelude::*;

verus! {

/// The words that open the greeting, up to and including the blank before
/// the project's name.
pub open spec fn greeting_prefix() -> Seq<char> {
    "Hello from "@
}

/// The name under which the project greets: the token that stands where a
/// project's own name goes.
pub open spec fn project_name() -> Seq<char> {
    "@ign-var:PROJECT_NAME@"@
}

/// The greeting of a project called `name`: the opening words, the name, and
/// an exclamation mark.
pub open spec fn greeting_for(name: Seq<char>) -> Seq<char> {
    greeting_prefix() + name + seq!['!']
}

/// The greeting of this project.
pub open spec fn greeting() -> Seq<char> {
    greeting_for(project_name())
}

/// The greeting of this project, written out: its characters are those of
/// the one literal below, all of them ASCII, 34 in number.
pub proof fn lemma_greeting_text()
    ensures
        greeting() == "Hello from @ign-var:PROJECT_NAME@!"@,
        greeting().len() == 34,
        vstd::utf8::is_ascii_chars(greeting()),
{
    reveal_strlit("Hello from ");
    reveal_strlit("@ign-var:PROJECT_NAME@");
    reveal_strlit("Hello from @ign-var:PROJECT_NAME@!");
    assert(greeting() =~= "Hello from @ign-var:PROJECT_NAME@!"@);
}

/// Whatever the name, a greeting is never empty, begins with the opening
/// words, ends with an exclamation mark, and holds the name in between.
pub proof fn lemma_greeting_for_shape(name: Seq<char>)
    ensures
        greeting_for(name).len() == greeting_prefix().len() + name.len() + 1,
        greeting_for(name).len() > 0,
        greeting_prefix().is_prefix_of(greeting_for(name)),
        greeting_for(name).last() == '!',
        greeting_for(name).subrange(
            greeting_prefix().len() as int,
            greeting_for(name).len() - 1,
        ) == name,
{
    let g = greeting_for(name);
    let p = greeting_prefix();
    assert(g.subrange(0, p.len() as int) =~= p);
    assert(g.subrange(p.len() as int, g.len() - 1) =~= name);
}

/// Returns the greeting of this project.
///
/// The call takes nothing, reads and changes no state, and cannot fail. The
/// result is the same text at every call: it is `greeting()`, character for
/// character.
pub fn hello() -> (s: &'static str)
    ensures
        s@ == greeting(),
        s@.len() > 0,
        greeting_prefix().is_prefix_of(s@),
        s.is_ascii(),
{
    proof {
        lemma_greeting_text();
        lemma_greeting_for_shape(project_name());
    }
    "Hello from @ign-var:PROJECT_NAME@!"
}

/// Any two results of `hello` are the same text: its contract admits one
/// value only, so no call can differ from another.
pub proof fn lemma_hello_is_constant(first: &'static str, second: &'static str)
    requires
        call_ensures(hello, (), first),
        call_ensures(hello, (), second),
    ensures
        first@ == second@,
        first@ == greeting(),
{
}

} // verus!
