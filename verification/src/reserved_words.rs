use vstd::prelude::*;
use vstd::string::*;
use crate::error::ScaffoldError;

verus! {

/// The identifiers that generated code keeps for itself.
pub open spec fn reserved_words() -> Seq<Seq<char>> {
    seq![
        "type"@,
        "role"@,
        "enum"@,
        "pub"@,
        "fn"@,
        "mod"@,
        "struct"@,
        "const"@,
        "Option"@,
        "Result"@,
        "crate"@,
        "hdi"@,
        "hdk"@,
        "return"@,
        "if"@,
        "else"@,
        "match"@,
    ]
}

/// `word` is one of the reserved identifiers, letter for letter.
pub open spec fn is_reserved(word: Seq<char>) -> bool {
    reserved_words().contains(word)
}

fn reserved_word_list() -> (words: Vec<String>)
    ensures
        words@.len() == reserved_words().len(),
        forall|i: int| 0 <= i < words@.len() ==> (#[trigger] words@[i])@ == reserved_words()[i],
{
    let mut words: Vec<String> = Vec::new();
    words.push(String::from_str("type"));
    words.push(String::from_str("role"));
    words.push(String::from_str("enum"));
    words.push(String::from_str("pub"));
    words.push(String::from_str("fn"));
    words.push(String::from_str("mod"));
    words.push(String::from_str("struct"));
    words.push(String::from_str("const"));
    words.push(String::from_str("Option"));
    words.push(String::from_str("Result"));
    words.push(String::from_str("crate"));
    words.push(String::from_str("hdi"));
    words.push(String::from_str("hdk"));
    words.push(String::from_str("return"));
    words.push(String::from_str("if"));
    words.push(String::from_str("else"));
    words.push(String::from_str("match"));
    words
}

/// Accepts every word but a reserved one, which is refused by name.
pub fn check_for_reserved_words(word: &str) -> (outcome: Result<(), ScaffoldError>)
    ensures
        match outcome {
            Ok(_) => !is_reserved(word@),
            Err(ScaffoldError::InvalidReservedWord(refused)) => is_reserved(word@) && refused@
                == word@,
            Err(_) => false,
        },
{
    let words = reserved_word_list();
    let given = String::from_str(word);
    let mut i: usize = 0;
    while i < words.len()
        invariant
            0 <= i <= words@.len(),
            given@ == word@,
            words@.len() == reserved_words().len(),
            forall|j: int| 0 <= j < words@.len() ==> (#[trigger] words@[j])@ == reserved_words()[j],
            forall|j: int| 0 <= j < i ==> reserved_words()[j] != word@,
        decreases words@.len() - i,
    {
        if words[i] == given {
            assert(reserved_words()[i as int] == word@);
            return Err(ScaffoldError::InvalidReservedWord(given));
        }
        i = i + 1;
    }
    Ok(())
}

} // verus!
