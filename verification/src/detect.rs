//! Choosing a base command when the caller has no preference.
//!
//! Detection looks at the host in a fixed order: is `podman` in the search
//! path, then is `docker` there, then does the output of `groups` list the
//! group `docker`. Looking is the caller's part. This module decides what to
//! look at next and what the answers add up to: the caller asks a
//! [`Detection`] for its [`Action`], performs it, and hands the outcome back
//! as an [`Event`], until the action is [`Action::Finish`].

use crate::launcher::BaseCommand;
use crate::text::text_of;
use vstd::prelude::*;

verus! {

/// Whether a character is white space: the code points with the Unicode
/// property `White_Space`.
pub open spec fn is_whitespace(c: char) -> bool {
    let code = c as u32;
    ||| 0x09 <= code <= 0x0d
    ||| code == 0x20
    ||| code == 0x85
    ||| code == 0xa0
    ||| code == 0x1680
    ||| 0x2000 <= code <= 0x200a
    ||| code == 0x2028
    ||| code == 0x2029
    ||| code == 0x202f
    ||| code == 0x205f
    ||| code == 0x3000
}

/// The characters from `start` up to `end` are a word of the text: a run of
/// characters, none of them white space, that cannot be made longer at
/// either end.
pub open spec fn is_word(text: Seq<char>, start: int, end: int) -> bool {
    &&& 0 <= start < end <= text.len()
    &&& forall|i: int| start <= i < end ==> !is_whitespace(#[trigger] text[i])
    &&& (start == 0 || is_whitespace(text[start - 1]))
    &&& (end == text.len() || is_whitespace(text[end]))
}

/// The word from `start` up to `end` of the text is `word`.
pub open spec fn is_word_equal(text: Seq<char>, word: Seq<char>, start: int, end: int) -> bool {
    is_word(text, start, end) && text.subrange(start, end) == word
}

/// One of the words of the text, as white space separates them, is `word`.
pub open spec fn has_word(text: Seq<char>, word: Seq<char>) -> bool {
    exists|start: int, end: int| is_word_equal(text, word, start, end)
}

/// Whether a character is white space.
pub fn is_space(c: char) -> (space: bool)
    ensures
        space == is_whitespace(c),
{
    let code: u32 = c as u32;
    if code <= 0x20 {
        (0x09 <= code && code <= 0x0d) || code == 0x20
    } else if code < 0x1680 {
        code == 0x85 || code == 0xa0
    } else {
        code == 0x1680 || (0x2000 <= code && code <= 0x200a) || code == 0x2028 || code == 0x2029
            || code == 0x202f || code == 0x205f || code == 0x3000
    }
}

/// The characters of a string, one by one.
fn chars_of(text: &str) -> (chars: Vec<char>)
    ensures
        chars@ == text@,
{
    let mut chars: Vec<char> = Vec::new();
    for c in it: text.chars()
        invariant
            chars@ == it.seq().take(it.index()),
            it.seq() == text@,
    {
        chars.push(c);
    }
    chars
}

/// Whether the characters of `text` from `start` up to `end` are `word`.
fn matches_at(text: &Vec<char>, start: usize, end: usize, word: &Vec<char>) -> (same: bool)
    requires
        start <= end <= text@.len(),
    ensures
        same == (text@.subrange(start as int, end as int) == word@),
{
    if end - start != word.len() {
        return false;
    }
    let n = word.len();
    let mut k: usize = 0;
    while k < n
        invariant
            k <= n,
            n == word@.len(),
            end - start == n,
            start <= end <= text@.len(),
            forall|j: int| 0 <= j < k ==> text@[start + j] == word@[j],
        decreases n - k,
    {
        if text[start + k] != word[k] {
            return false;
        }
        k += 1;
    }
    assert(text@.subrange(start as int, end as int) =~= word@);
    true
}

/// Whether one of the words of `text`, as white space separates them, is
/// `word`.
pub fn contains_word(text: &str, word: &str) -> (found: bool)
    ensures
        found == has_word(text@, word@),
{
    let chars = chars_of(text);
    let target = chars_of(word);
    let n = chars.len();
    let mut i: usize = 0;
    while i < n
        invariant
            i <= n,
            n == chars@.len(),
            chars@ == text@,
            target@ == word@,
            i == 0 || i == n || is_whitespace(chars@[i - 1]) || is_whitespace(chars@[i as int]),
            forall|start: int, end: int|
                end <= i ==> !#[trigger] is_word_equal(text@, word@, start, end),
        decreases n - i,
    {
        if is_space(chars[i]) {
            i += 1;
        } else {
            let start = i;
            let mut end = i + 1;
            while end < n && !is_space(chars[end])
                invariant
                    start < end <= n,
                    n == chars@.len(),
                    forall|j: int| start <= j < end ==> !is_whitespace(#[trigger] chars@[j]),
                decreases n - end,
            {
                end += 1;
            }
            if matches_at(&chars, start, end, &target) {
                assert(is_word_equal(text@, word@, start as int, end as int));
                return true;
            }
            // The word from `start` up to `end` is the only one that ends
            // behind `start` and not behind `end`.
            assert forall|s: int, e: int| e <= end implies !#[trigger] is_word_equal(
                text@,
                word@,
                s,
                e,
            ) by {
                if start < e && is_word(text@, s, e) {
                    assert(s == start && e == end);
                }
            }
            i = end;
        }
    }
    false
}

/// What the caller is to do next.
#[derive(Clone, Copy, Debug, Eq, PartialEq)]
pub enum Action {
    /// Find out whether a directory of the search path holds a file of this
    /// name.
    SearchPath(&'static str),
    /// Run `groups` and capture what it prints.
    RunGroups,
    /// Detection is over: this is the base command to use, or `None` where
    /// the host has no engine.
    Finish(Option<BaseCommand>),
}

/// What the caller found out.
#[derive(Clone, Debug, Eq, PartialEq)]
pub enum Event {
    /// Whether the search path holds the file that was asked for.
    Searched(bool),
    /// What `groups` printed, or `None` where it could not be run or ended
    /// with an error.
    GroupsRan(Option<String>),
}

/// What an [`Event`] holds, with the output as text.
pub enum EventView {
    /// Whether the file was found.
    Searched(bool),
    /// What `groups` printed, if it ran.
    GroupsRan(Option<Seq<char>>),
}

impl View for Event {
    type V = EventView;

    open spec fn view(&self) -> EventView {
        match self {
            Event::Searched(found) => EventView::Searched(*found),
            Event::GroupsRan(output) => EventView::GroupsRan(text_of(*output)),
        }
    }
}

/// How far detection has got.
#[derive(Clone, Copy, Debug, Eq, PartialEq)]
pub enum Detection {
    /// Nothing is known yet.
    SeekingPodman,
    /// The search path has no `podman`.
    SeekingDocker,
    /// The search path has `docker` and no `podman`.
    ProbingGroup,
    /// The choice is made.
    Settled(Option<BaseCommand>),
}

/// Whether the user may run docker without elevation: `groups` ran, and one
/// of the words that it printed is `docker`.
pub open spec fn in_docker_group(groups: Option<Seq<char>>) -> bool {
    groups matches Some(output) && has_word(output, "docker"@)
}

/// The base command that fits what the host shows: Podman where `podman` is
/// in the search path; else Docker where `docker` is, with sudo unless the
/// user is in the group `docker`; else none.
pub open spec fn choice(podman: bool, docker: bool, groups: Option<Seq<char>>) -> Option<
    BaseCommand,
> {
    if podman {
        Some(BaseCommand::Podman)
    } else if docker {
        if in_docker_group(groups) {
            Some(BaseCommand::Docker)
        } else {
            Some(BaseCommand::SudoDocker)
        }
    } else {
        None
    }
}

impl Detection {
    /// The action that a state calls for.
    pub open spec fn spec_action(self) -> Action {
        match self {
            Detection::SeekingPodman => Action::SearchPath("podman"),
            Detection::SeekingDocker => Action::SearchPath("docker"),
            Detection::ProbingGroup => Action::RunGroups,
            Detection::Settled(choice) => Action::Finish(choice),
        }
    }

    /// The state that follows a state on an event. An event that does not
    /// answer the state's action leaves the state as it is.
    pub open spec fn spec_advance(self, event: EventView) -> Detection {
        match (self, event) {
            (Detection::SeekingPodman, EventView::Searched(found)) => if found {
                Detection::Settled(Some(BaseCommand::Podman))
            } else {
                Detection::SeekingDocker
            },
            (Detection::SeekingDocker, EventView::Searched(found)) => if found {
                Detection::ProbingGroup
            } else {
                Detection::Settled(None)
            },
            (Detection::ProbingGroup, EventView::GroupsRan(groups)) => if in_docker_group(groups) {
                Detection::Settled(Some(BaseCommand::Docker))
            } else {
                Detection::Settled(Some(BaseCommand::SudoDocker))
            },
            _ => self,
        }
    }

    /// Where detection starts.
    pub fn start() -> (state: Detection)
        ensures
            state == Detection::SeekingPodman,
    {
        Detection::SeekingPodman
    }

    /// What the caller is to do in this state.
    pub fn action(&self) -> (action: Action)
        ensures
            action == self.spec_action(),
    {
        match self {
            Detection::SeekingPodman => Action::SearchPath("podman"),
            Detection::SeekingDocker => Action::SearchPath("docker"),
            Detection::ProbingGroup => Action::RunGroups,
            Detection::Settled(choice) => Action::Finish(*choice),
        }
    }

    /// The state after the caller has done what the state called for and
    /// hands back what it found.
    pub fn advance(self, event: &Event) -> (next: Detection)
        ensures
            next == self.spec_advance(event@),
    {
        match self {
            Detection::SeekingPodman => match event {
                Event::Searched(true) => Detection::Settled(Some(BaseCommand::Podman)),
                Event::Searched(false) => Detection::SeekingDocker,
                _ => self,
            },
            Detection::SeekingDocker => match event {
                Event::Searched(true) => Detection::ProbingGroup,
                Event::Searched(false) => Detection::Settled(None),
                _ => self,
            },
            Detection::ProbingGroup => match event {
                Event::GroupsRan(Some(output)) => if contains_word(output.as_str(), "docker") {
                    Detection::Settled(Some(BaseCommand::Docker))
                } else {
                    Detection::Settled(Some(BaseCommand::SudoDocker))
                },
                Event::GroupsRan(None) => Detection::Settled(Some(BaseCommand::SudoDocker)),
                _ => self,
            },
            Detection::Settled(_) => self,
        }
    }
}

/// The action that detection ends on when the caller answers each question
/// from what the host shows: whether `podman` and `docker` are in the search
/// path, and what `groups` prints if it runs. A question is put only where
/// the answers before it have not settled the choice.
pub open spec fn outcome(podman: bool, docker: bool, groups: Option<Seq<char>>) -> Action {
    let first = Detection::SeekingPodman.spec_advance(EventView::Searched(podman));
    if first.spec_action() is Finish {
        first.spec_action()
    } else {
        let second = first.spec_advance(EventView::Searched(docker));
        if second.spec_action() is Finish {
            second.spec_action()
        } else {
            second.spec_advance(EventView::GroupsRan(groups)).spec_action()
        }
    }
}

/// Detection puts at most three questions, in the order podman, docker,
/// groups, and ends on the base command that fits the answers.
pub proof fn lemma_detection_follows_choice(podman: bool, docker: bool, groups: Option<Seq<char>>)
    ensures
        ({
            let first = Detection::SeekingPodman;
            let second = first.spec_advance(EventView::Searched(podman));
            let third = second.spec_advance(EventView::Searched(docker));
            &&& first.spec_action() == Action::SearchPath("podman")
            &&& !podman ==> second.spec_action() == Action::SearchPath("docker")
            &&& !podman && docker ==> third.spec_action() == Action::RunGroups
            &&& outcome(podman, docker, groups) == Action::Finish(choice(podman, docker, groups))
        }),
{
}

/// Where `podman` is in the search path, detection ends at once on Podman,
/// whether or not `docker` is there too and whatever `groups` would print.
pub proof fn lemma_podman_comes_first(docker: bool, groups: Option<Seq<char>>)
    ensures
        Detection::SeekingPodman.spec_advance(EventView::Searched(true)) == Detection::Settled(
            Some(BaseCommand::Podman),
        ),
        outcome(true, docker, groups) == Action::Finish(Some(BaseCommand::Podman)),
        choice(true, docker, groups) == Some(BaseCommand::Podman),
{
}

/// A probe of the groups that fails counts as one that does not list the
/// group `docker`: the choice is the same.
pub proof fn lemma_failed_probe_is_no_membership(podman: bool, docker: bool, output: Seq<char>)
    requires
        !has_word(output, "docker"@),
    ensures
        choice(podman, docker, None) == choice(podman, docker, Some(output)),
        outcome(podman, docker, None) == outcome(podman, docker, Some(output)),
{
}

} // verus!
