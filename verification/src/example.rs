use vstd::prelude::*;
use vstd::string::*;
use crate::error::ScaffoldError;

verus! {

/// The example applications that can be scaffolded whole.
#[derive(Clone, Copy, Debug, PartialEq, Eq, Structural)]
pub enum ExampleType {
    HelloWorld,
    Forum,
}

/// The name by which an example is written and chosen.
pub open spec fn example_name(example: ExampleType) -> Seq<char> {
    match example {
        ExampleType::HelloWorld => "hello-world"@,
        ExampleType::Forum => "forum"@,
    }
}

impl ExampleType {
    /// The example that stands at `selection` in the menu of examples: the
    /// first entry is the hello-world example, every other the forum.
    pub fn from_selection(selection: usize) -> (example: ExampleType)
        ensures
            example == (if selection == 0 { ExampleType::HelloWorld } else { ExampleType::Forum }),
    {
        if selection == 0 {
            ExampleType::HelloWorld
        } else {
            ExampleType::Forum
        }
    }

    pub fn to_string(&self) -> (name: String)
        ensures
            name@ == example_name(*self),
    {
        match self {
            ExampleType::HelloWorld => String::from_str("hello-world"),
            ExampleType::Forum => String::from_str("forum"),
        }
    }

    /// Reads an example's name; any other text is refused with the erroneous
    /// text and the accepted names.
    pub fn from_str(s: &str) -> (parsed: Result<ExampleType, ScaffoldError>)
        ensures
            s@ == example_name(ExampleType::HelloWorld) ==> parsed == Ok::<ExampleType, ScaffoldError>(ExampleType::HelloWorld),
            s@ == example_name(ExampleType::Forum) ==> parsed == Ok::<ExampleType, ScaffoldError>(ExampleType::Forum),
            s@ != example_name(ExampleType::HelloWorld) && s@ != example_name(ExampleType::Forum)
                ==> (parsed matches Err(ScaffoldError::InvalidExampleType(given, accepted))
                    && given@ == s@ && accepted@ == "hello-world, forum"@),
    {
        proof {
            reveal_strlit("hello-world");
            reveal_strlit("forum");
            assert("hello-world"@.len() != "forum"@.len());
        }
        let text = String::from_str(s);
        if text == String::from_str("hello-world") {
            Ok(ExampleType::HelloWorld)
        } else if text == String::from_str("forum") {
            Ok(ExampleType::Forum)
        } else {
            Err(ScaffoldError::InvalidExampleType(text, String::from_str("hello-world, forum")))
        }
    }
}

/// The two examples have different names, so a name that is written and read
/// back gives the example it was written for.
pub proof fn example_names_differ()
    ensures
        example_name(ExampleType::HelloWorld) != example_name(ExampleType::Forum),
{
    reveal_strlit("hello-world");
    reveal_strlit("forum");
    assert("hello-world"@.len() != "forum"@.len());
}

} // verus!
