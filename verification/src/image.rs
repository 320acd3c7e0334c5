//! Image references: a repository, a colon, and a tag or digest.

use vstd::prelude::*;

verus! {

/// The repository that `image` names: what stands before its last colon.
///
/// There is none where `image` holds no colon, and none where nothing stands
/// before the last one: such a reference is malformed.
pub open spec fn repository_of(image: Seq<char>) -> Option<Seq<char>> {
    match image.index_of_last(':') {
        Some(at) => if at > 0 {
            Some(image.take(at))
        } else {
            None
        },
        None => None,
    }
}

/// `str::rsplit_once` with a `char` as the delimiter.
///
/// Trusted: the string is cut at the last occurrence of `delimiter`, which
/// itself goes to neither part; where it does not occur, `None` comes back.
#[verifier::external_body]
fn rsplit_once(text: &str, delimiter: char) -> (parts: Option<(&str, &str)>)
    ensures
        match parts {
            Some((head, tail)) => text@ == head@ + seq![delimiter] + tail@ && !tail@.contains(
                delimiter,
            ),
            None => !text@.contains(delimiter),
        },
{
    text.rsplit_once(delimiter)
}

/// Where `text` is `head`, a `needle` and a `tail` free of `needle`, the last
/// `needle` stands right behind `head`.
pub proof fn lemma_last_occurrence(text: Seq<char>, head: Seq<char>, tail: Seq<char>, needle: char)
    requires
        text == head + seq![needle] + tail,
        !tail.contains(needle),
    ensures
        text.index_of_last(needle) == Some(head.len() as int),
        text.take(head.len() as int) == head,
{
    let cut = head.len() as int;
    text.index_of_last_ensures(needle);
    assert(text[cut] == needle);
    assert(text.contains(needle));
    let at = text.index_of_last(needle).unwrap();
    if at > cut {
        assert(tail[at - cut - 1] == needle);
        assert(tail.contains(needle));
    }
    assert(text.take(cut) =~= head);
}

/// A repository, a colon and a tag that holds no colon make an image
/// reference that names that repository.
pub proof fn lemma_repository_round_trip(repository: Seq<char>, tag: Seq<char>)
    requires
        repository.len() > 0,
        !tag.contains(':'),
    ensures
        repository_of(repository + seq![':'] + tag) == Some(repository),
{
    lemma_last_occurrence(repository + seq![':'] + tag, repository, tag, ':');
}

/// An image reference without a colon names no repository: it is malformed,
/// not a repository with an empty tag.
pub proof fn lemma_no_colon_is_malformed(image: Seq<char>)
    requires
        !image.contains(':'),
    ensures
        repository_of(image) is None,
{
    image.index_of_last_ensures(':');
}

/// The repository that `image` names, or `None` where `image` is malformed.
pub fn image_repository(image: &str) -> (repository: Option<&str>)
    ensures
        match repository {
            Some(name) => repository_of(image@) == Some(name@),
            None => repository_of(image@) is None,
        },
{
    match rsplit_once(image, ':') {
        Some((head, tail)) => {
            proof {
                lemma_last_occurrence(image@, head@, tail@, ':');
            }
            if head.is_empty() {
                None
            } else {
                Some(head)
            }
        },
        None => {
            proof {
                image@.index_of_last_ensures(':');
            }
            None
        },
    }
}

} // verus!
