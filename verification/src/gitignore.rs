use vstd::prelude::*;
use vstd::string::*;

verus! {

/// The ignore file written at the root of a new application.
pub open spec fn gitignore_text() -> Seq<char> {
    "# editors
/.idea
/.vscode

# system files
.DS_Store

# build
/dist/
/target/
/.cargo/

# npm 
/**/node_modules/

# generated and compiled files
*.happ
*.webhapp
*.zip
*.dna

# temporary files
.hc*
.running
.hc
"@
}

pub fn gitignore() -> (text: String)
    ensures
        text@ == gitignore_text(),
{
    String::from_str("# editors
/.idea
/.vscode

# system files
.DS_Store

# build
/dist/
/target/
/.cargo/

# npm 
/**/node_modules/

# generated and compiled files
*.happ
*.webhapp
*.zip
*.dna

# temporary files
.hc*
.running
.hc
")
}

} // verus!
