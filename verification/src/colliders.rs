//! Finding the scene objects that still need physics set up, by their names.

use vstd::prelude::*;

verus! {

/// The pattern of the names of level geometry that needs a collider.
pub const CUBE_PATTERN: &'static str = "^Cube";

/// The pattern of the names of ammunition clips.
pub const CLIP_PATTERN: &'static str = "^Clip";

/// `regex::Error`, why a pattern did not compile.
#[verifier::external_type_specification]
#[verifier::external_body]
pub struct ExRegexError(regex::Error);

/// Whether `regex::Regex::new` accepts `pattern`.
pub uninterp spec fn pattern_compiles(pattern: Seq<char>) -> bool;

/// What `regex::Regex::is_match` returns for `text` on the regex compiled
/// from `pattern`: whether the pattern matches anywhere in the text.
pub uninterp spec fn pattern_matches(pattern: Seq<char>, text: Seq<char>) -> bool;

/// A pattern that is no regular expression.
#[derive(Clone, Copy, Debug, PartialEq, Eq, Structural)]
pub struct BadPattern;

/// Compiles `pattern` with `regex::Regex::new` and tests `text` with
/// `Regex::is_match`. The contract claims only that both are functions of
/// their arguments: the error comes exactly for the patterns that do not
/// compile, and the answer is the one that the regex gives for this pattern
/// and text.
#[verifier::external_body]
fn regex_is_match(pattern: &str, text: &str) -> (r: Result<bool, regex::Error>)
    ensures
        r is Ok <==> pattern_compiles(pattern@),
        r is Ok ==> r->Ok_0 == pattern_matches(pattern@, text@),
{
    let compiled = regex::Regex::new(pattern)?;
    Ok(compiled.is_match(text))
}

/// Whether `pattern` matches `name`, or that the pattern does not compile.
pub fn name_matches(pattern: &str, name: &str) -> (r: Result<bool, BadPattern>)
    ensures
        r is Ok <==> pattern_compiles(pattern@),
        r is Ok ==> r->Ok_0 == pattern_matches(pattern@, name@),
{
    match regex_is_match(pattern, name) {
        Ok(found) => Ok(found),
        Err(_) => Err(BadPattern),
    }
}

/// Whether any of the flags is set.
pub fn any_set(flags: &Vec<bool>) -> (r: bool)
    ensures
        r == exists|i: int| 0 <= i < flags@.len() && flags@[i],
{
    let mut i: usize = 0;
    while i < flags.len()
        invariant
            i <= flags@.len(),
            forall|k: int| 0 <= k < i ==> !flags@[k],
        decreases flags@.len() - i,
    {
        if flags[i] {
            return true;
        }
        i += 1;
    }
    false
}

/// For each of `names`, in order, whether `pattern` matches it. With no
/// names there is nothing to test and the pattern is not looked at.
pub fn matching_names(pattern: &str, names: &Vec<String>) -> (r: Result<Vec<bool>, BadPattern>)
    ensures
        r is Ok <==> pattern_compiles(pattern@) || names@.len() == 0,
        r is Ok ==> r->Ok_0@.len() == names@.len() && forall|i: int|
            0 <= i < names@.len() ==> r->Ok_0@[i] == pattern_matches(pattern@, names@[i]@),
{
    let mut flags: Vec<bool> = Vec::new();
    let mut i: usize = 0;
    while i < names.len()
        invariant
            i <= names@.len(),
            flags@.len() == i,
            i > 0 ==> pattern_compiles(pattern@),
            forall|k: int| 0 <= k < i ==> flags@[k] == pattern_matches(pattern@, names@[k]@),
        decreases names@.len() - i,
    {
        match name_matches(pattern, names[i].as_str()) {
            Ok(found) => {
                flags.push(found);
            },
            Err(error) => {
                return Err(error);
            },
        }
        i += 1;
    }
    Ok(flags)
}

/// Whether the scene holds objects that still need physics set up: a clip
/// that is not tagged yet, or level geometry without its collider.
///
/// `untagged` holds the names of the objects without a clip tag and
/// `unprepped` the names of those without a collider.
pub fn should_prep_colliders(untagged: &Vec<String>, unprepped: &Vec<String>) -> (r: Result<
    bool,
    BadPattern,
>)
    ensures
        r is Ok <==> (pattern_compiles(CLIP_PATTERN@) || untagged@.len() == 0) && (
        pattern_compiles(CUBE_PATTERN@) || unprepped@.len() == 0),
        r is Ok ==> r->Ok_0 == ((exists|i: int|
            0 <= i < untagged@.len() && pattern_matches(CLIP_PATTERN@, untagged@[i]@)) || (
        exists|i: int| 0 <= i < unprepped@.len() && pattern_matches(CUBE_PATTERN@, unprepped@[i]@))),
{
    let clips = match matching_names(CLIP_PATTERN, untagged) {
        Ok(flags) => flags,
        Err(error) => {
            return Err(error);
        },
    };
    let cubes = match matching_names(CUBE_PATTERN, unprepped) {
        Ok(flags) => flags,
        Err(error) => {
            return Err(error);
        },
    };
    let any_clip = any_set(&clips);
    let any_cube = any_set(&cubes);
    proof {
        if any_clip {
            let i = choose|i: int| 0 <= i < clips@.len() && clips@[i];
            assert(pattern_matches(CLIP_PATTERN@, untagged@[i]@));
        }
        if any_cube {
            let i = choose|i: int| 0 <= i < cubes@.len() && cubes@[i];
            assert(pattern_matches(CUBE_PATTERN@, unprepped@[i]@));
        }
        if exists|i: int| 0 <= i < untagged@.len() && pattern_matches(CLIP_PATTERN@, untagged@[i]@) {
            let i = choose|i: int|
                0 <= i < untagged@.len() && pattern_matches(CLIP_PATTERN@, untagged@[i]@);
            assert(clips@[i]);
        }
        if exists|i: int|
            0 <= i < unprepped@.len() && pattern_matches(CUBE_PATTERN@, unprepped@[i]@) {
            let i = choose|i: int|
                0 <= i < unprepped@.len() && pattern_matches(CUBE_PATTERN@, unprepped@[i]@);
            assert(cubes@[i]);
        }
    }
    Ok(any_clip || any_cube)
}

} // verus!
