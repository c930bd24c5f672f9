use vstd::prelude::*;
use crate::error::ScheduleError;
use crate::text::str_eq;

verus! {

/// Ghost image of a group profile: each track's selection as characters.
#[verifier::ext_equal]
pub struct UserGroupsView {
    pub group: Option<Seq<char>>,
    pub combinatorics: Option<Seq<char>>,
    pub algorithms: Option<Seq<char>>,
}

/// Per-user record of up to three independent group selections: the main
/// study group and the groups of the two elective tracks.  Each field stays
/// unset until the user issues the matching set-command.
pub struct UserGroups {
    pub group: Option<String>,
    pub combinatorics: Option<String>,
    pub algorithms: Option<String>,
}

impl View for UserGroups {
    type V = UserGroupsView;

    open spec fn view(&self) -> UserGroupsView {
        UserGroupsView {
            group: match self.group {
                Some(g) => Some(g@),
                None => None,
            },
            combinatorics: match self.combinatorics {
                Some(g) => Some(g@),
                None => None,
            },
            algorithms: match self.algorithms {
                Some(g) => Some(g@),
                None => None,
            },
        }
    }
}

/// The values the main-group track accepts.
pub open spec fn main_group_allowed(v: Seq<char>) -> bool {
    v == "M4140"@ || v == "M4141"@
}

/// The values the combinatorics track accepts.
pub open spec fn combinatorics_group_allowed(v: Seq<char>) -> bool {
    v == "Samoylova"@ || v == "Korablinov"@
}

/// The values the algorithms track accepts.
pub open spec fn algorithms_group_allowed(v: Seq<char>) -> bool {
    v == "Lapenok"@ || v == "Mishunin"@ || v == "Korablinov"@
}

pub fn is_main_group_allowed(v: &str) -> (r: bool)
    ensures
        r == main_group_allowed(v@),
{
    str_eq(v, "M4140") || str_eq(v, "M4141")
}

pub fn is_combinatorics_group_allowed(v: &str) -> (r: bool)
    ensures
        r == combinatorics_group_allowed(v@),
{
    str_eq(v, "Samoylova") || str_eq(v, "Korablinov")
}

pub fn is_algorithms_group_allowed(v: &str) -> (r: bool)
    ensures
        r == algorithms_group_allowed(v@),
{
    str_eq(v, "Lapenok") || str_eq(v, "Mishunin") || str_eq(v, "Korablinov")
}

/// One track's selection lets a lesson group through when nothing is
/// selected on that track or the selection names exactly that group.
pub open spec fn track_lets_pass(sel: Option<Seq<char>>, g: Seq<char>) -> bool {
    sel is None || sel == Some(g)
}

/// Whether a lesson restricted to group `g` is visible under profile `p`.
///
/// The lesson data carries no marker saying which track a group value
/// belongs to; a value is taken to belong to every track whose allowed set
/// contains it, and one outside every set compares with nothing, so it
/// passes for everyone.  A value two tracks allow passes if either track
/// lets it through.
pub open spec fn group_passes(p: UserGroupsView, g: Seq<char>) -> bool {
    if !main_group_allowed(g) && !combinatorics_group_allowed(g) && !algorithms_group_allowed(g) {
        true
    } else {
        (main_group_allowed(g) && track_lets_pass(p.group, g)) || (combinatorics_group_allowed(g)
            && track_lets_pass(p.combinatorics, g)) || (algorithms_group_allowed(g)
            && track_lets_pass(p.algorithms, g))
    }
}

fn track_lets_pass_exec(sel: &Option<String>, g: &str) -> (r: bool)
    ensures
        r == track_lets_pass(match *sel {
            Some(s) => Some(s@),
            None => None,
        }, g@),
{
    match sel {
        None => true,
        Some(s) => str_eq(s.as_str(), g),
    }
}

impl UserGroups {
    /// A profile with no selection made yet on any track.
    pub fn new() -> (r: UserGroups)
        ensures
            r@.group is None,
            r@.combinatorics is None,
            r@.algorithms is None,
    {
        UserGroups { group: None, combinatorics: None, algorithms: None }
    }

    /// Whether a lesson restricted to group `g` is visible under this profile.
    pub fn lets_group_pass(&self, g: &str) -> (r: bool)
        ensures
            r == group_passes(self@, g@),
    {
        let in_main = is_main_group_allowed(g);
        let in_comb = is_combinatorics_group_allowed(g);
        let in_algo = is_algorithms_group_allowed(g);
        if !in_main && !in_comb && !in_algo {
            true
        } else {
            (in_main && track_lets_pass_exec(&self.group, g)) || (in_comb && track_lets_pass_exec(
                &self.combinatorics,
                g,
            )) || (in_algo && track_lets_pass_exec(&self.algorithms, g))
        }
    }

    /// Sets the main group; a value outside the allowed set is rejected and
    /// leaves the profile unchanged.
    pub fn set_group(&mut self, value: String) -> (r: Result<(), ScheduleError>)
        ensures
            r is Ok <==> main_group_allowed(value@),
            r is Ok ==> final(self)@.group == Some(value@),
            r is Err ==> r == Err::<(), ScheduleError>(ScheduleError::InvalidGroupValue)
                && final(self)@.group == old(self)@.group,
            final(self)@.combinatorics == old(self)@.combinatorics,
            final(self)@.algorithms == old(self)@.algorithms,
    {
        if is_main_group_allowed(value.as_str()) {
            self.group = Some(value);
            Ok(())
        } else {
            Err(ScheduleError::InvalidGroupValue)
        }
    }

    /// Sets the combinatorics-track group; an invalid value is rejected and
    /// leaves the profile unchanged.
    pub fn set_combinatorics_group(&mut self, value: String) -> (r: Result<(), ScheduleError>)
        ensures
            r is Ok <==> combinatorics_group_allowed(value@),
            r is Ok ==> final(self)@.combinatorics == Some(value@),
            r is Err ==> r == Err::<(), ScheduleError>(ScheduleError::InvalidGroupValue)
                && final(self)@.combinatorics == old(self)@.combinatorics,
            final(self)@.group == old(self)@.group,
            final(self)@.algorithms == old(self)@.algorithms,
    {
        if is_combinatorics_group_allowed(value.as_str()) {
            self.combinatorics = Some(value);
            Ok(())
        } else {
            Err(ScheduleError::InvalidGroupValue)
        }
    }

    /// Sets the algorithms-track group; an invalid value is rejected and
    /// leaves the profile unchanged.
    pub fn set_algorithms_group(&mut self, value: String) -> (r: Result<(), ScheduleError>)
        ensures
            r is Ok <==> algorithms_group_allowed(value@),
            r is Ok ==> final(self)@.algorithms == Some(value@),
            r is Err ==> r == Err::<(), ScheduleError>(ScheduleError::InvalidGroupValue)
                && final(self)@.algorithms == old(self)@.algorithms,
            final(self)@.group == old(self)@.group,
            final(self)@.combinatorics == old(self)@.combinatorics,
    {
        if is_algorithms_group_allowed(value.as_str()) {
            self.algorithms = Some(value);
            Ok(())
        } else {
            Err(ScheduleError::InvalidGroupValue)
        }
    }

    /// The reply for a main-group query: the stored value, or a note that
    /// none is set.
    pub fn group_status_message(&self) -> (r: String)
        ensures
            match self@.group {
                Some(g) => r@ == "Your group is "@ + g,
                None => r@ == "Your group is not set"@,
            },
    {
        match &self.group {
            Some(g) => {
                let mut out = String::from_str("Your group is ");
                out.append(g.as_str());
                out
            },
            None => String::from_str("Your group is not set"),
        }
    }
}

/// The reply listing the values the main-group track accepts.
pub fn main_group_options_message() -> (r: String)
    ensures
        r@ == "Possible group values are: M4140 or M4141"@,
{
    String::from_str("Possible group values are: M4140 or M4141")
}

/// The reply listing the values the combinatorics track accepts.
pub fn combinatorics_group_options_message() -> (r: String)
    ensures
        r@ == "Possible group values are: Samoylova or Korablinov"@,
{
    String::from_str("Possible group values are: Samoylova or Korablinov")
}

/// The reply listing the values the algorithms track accepts.
pub fn algorithms_group_options_message() -> (r: String)
    ensures
        r@ == "Possible group values are: Lapenok, Mishunin or Korablinov"@,
{
    String::from_str("Possible group values are: Lapenok, Mishunin or Korablinov")
}

} // verus!
