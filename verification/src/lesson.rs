use vstd::prelude::*;
use crate::groups::{group_passes, UserGroups, UserGroupsView};
use crate::text::{push_two_digits, two_digits_spec};

verus! {

/// Ghost image of a lesson.
#[verifier::ext_equal]
pub struct LessonView {
    pub name: Seq<char>,
    pub lesson_type: Seq<char>,
    pub link: Seq<char>,
    pub password: Option<Seq<char>>,
    pub group: Option<Seq<char>>,
    pub start_m: u32,
    pub end_m: u32,
}

/// One scheduled class occurrence on a given day, immutable once built.
/// `start_m` and `end_m` count minutes since midnight: a lesson starts
/// before it ends and ends within the day.  A lesson with a `group` is
/// restricted to callers of that group; one without applies to everyone.
#[derive(Debug)]
pub struct Lesson {
    name: String,
    lesson_type: String,
    link: String,
    password: Option<String>,
    group: Option<String>,
    start_m: u32,
    end_m: u32,
}

pub open spec fn opt_str_view(o: Option<String>) -> Option<Seq<char>> {
    match o {
        Some(s) => Some(s@),
        None => None,
    }
}

impl View for Lesson {
    type V = LessonView;

    closed spec fn view(&self) -> LessonView {
        LessonView {
            name: self.name@,
            lesson_type: self.lesson_type@,
            link: self.link@,
            password: opt_str_view(self.password),
            group: opt_str_view(self.group),
            start_m: self.start_m,
            end_m: self.end_m,
        }
    }
}

impl Lesson {
    #[verifier::type_invariant]
    spec fn wf(self) -> bool {
        self.start_m < self.end_m && self.end_m <= 1439
    }

    /// Builds a lesson from its plain fields, checking the minute bounds;
    /// a record whose times do not fit within a day yields nothing.
    pub fn new(
        name: String,
        lesson_type: String,
        link: String,
        password: Option<String>,
        group: Option<String>,
        start_m: u32,
        end_m: u32,
    ) -> (r: Option<Lesson>)
        ensures
            r is Some <==> start_m < end_m <= 1439,
            r is Some ==> r.unwrap()@ == (LessonView {
                name: name@,
                lesson_type: lesson_type@,
                link: link@,
                password: opt_str_view(password),
                group: opt_str_view(group),
                start_m,
                end_m,
            }),
    {
        if start_m < end_m && end_m <= 1439 {
            Some(Lesson { name, lesson_type, link, password, group, start_m, end_m })
        } else {
            None
        }
    }
}

impl Clone for Lesson {
    fn clone(&self) -> (r: Self)
        ensures
            r == *self,
    {
        proof {
            use_type_invariant(&*self);
        }
        Lesson {
            name: self.name.clone(),
            lesson_type: self.lesson_type.clone(),
            link: self.link.clone(),
            password: match &self.password {
                Some(p) => Some(p.clone()),
                None => None,
            },
            group: match &self.group {
                Some(g) => Some(g.clone()),
                None => None,
            },
            start_m: self.start_m,
            end_m: self.end_m,
        }
    }
}

/// A clock reading as hour and minute of day.
#[derive(Debug, Clone, Copy, PartialEq, Eq, Structural)]
pub struct TimeOfDay {
    pub hour: u32,
    pub minute: u32,
}

impl TimeOfDay {
    /// Relies on chrono's `Local::now` with `Timelike::hour` and
    /// `Timelike::minute`: the hour of a clock reading is 0 to 23 and the
    /// minute 0 to 59, whatever moment the clock returns.
    #[verifier::external_body]
    pub fn now() -> (r: TimeOfDay)
        ensures
            r.hour < 24,
            r.minute < 60,
    {
        let now = chrono::Local::now();
        TimeOfDay { hour: chrono::Timelike::hour(&now), minute: chrono::Timelike::minute(&now) }
    }
}

/// A lesson is still "next" while the clock stands short of three minutes
/// past its start: the 3-minute grace window.
pub open spec fn is_next_spec(l: LessonView, t: TimeOfDay) -> bool {
    t.hour * 60 + t.minute - 3 < l.start_m
}

impl Lesson {
    /// Whether this lesson is still upcoming at `time`.  The comparison is
    /// guarded, so a clock reading within the first three minutes of the
    /// day cannot wrap around.
    pub fn is_next(&self, time: &TimeOfDay) -> (r: bool)
        ensures
            r == is_next_spec(self@, *time),
    {
        let cur: u64 = time.hour as u64 * 60 + time.minute as u64;
        cur < 3 || cur - 3 < self.start_m as u64
    }
}

/// The password suffix of a lesson line: present only when a password is set.
pub open spec fn password_suffix_spec(p: Option<Seq<char>>) -> Seq<char> {
    match p {
        Some(pw) => " Пароль: "@ + pw,
        None => Seq::<char>::empty(),
    }
}

/// The lesson name with each `+` escaped for the markup renderer.
pub open spec fn escape_plus_spec(s: Seq<char>) -> Seq<char>
    decreases s.len(),
{
    if s.len() == 0 {
        Seq::<char>::empty()
    } else {
        escape_plus_spec(s.drop_last()) + (if s.last() == '+' {
            "\\+"@
        } else {
            seq![s.last()]
        })
    }
}

/// A clock time `HH:MM`, zero-padded, from minutes since midnight.
pub open spec fn clock_spec(m: int) -> Seq<char> {
    two_digits_spec(m / 60) + ":"@ + two_digits_spec(m % 60)
}

/// The display line of one lesson: the time window, the linked name, the
/// lesson type in escaped parentheses and, when set, the password.
pub open spec fn format_lesson_spec(l: LessonView) -> Seq<char> {
    clock_spec(l.start_m as int) + " \\- "@ + clock_spec(l.end_m as int) + "\t["@
        + escape_plus_spec(l.name) + "]("@ + l.link + ") \\("@ + l.lesson_type + "\\)"@
        + password_suffix_spec(l.password)
}

/// Appends `name` to `out` with each `+` escaped.
fn append_escaped(out: &mut String, name: &str)
    ensures
        final(out)@ == old(out)@ + escape_plus_spec(name@),
{
    let n: usize = name.unicode_len();
    proof {
        assert(old(out)@ + escape_plus_spec(name@.subrange(0, 0)) =~= old(out)@);
    }
    for i in 0..n
        invariant
            n == name@.len(),
            out@ == old(out)@ + escape_plus_spec(name@.subrange(0, i as int)),
    {
        proof {
            let sub1 = name@.subrange(0, i + 1);
            assert(sub1.drop_last() =~= name@.subrange(0, i as int));
            assert(sub1.last() == name@[i as int]);
        }
        let c = name.get_char(i);
        if c == '+' {
            out.append("\\+");
        } else {
            let piece = name.substring_char(i, i + 1);
            proof {
                assert(piece@ =~= seq![name@[i as int]]);
            }
            out.append(piece);
        }
        proof {
            assert(out@ =~= old(out)@ + escape_plus_spec(name@.subrange(0, i + 1)));
        }
    }
    proof {
        assert(name@.subrange(0, n as int) =~= name@);
    }
}

impl Lesson {
    /// Renders this lesson as its display line.
    pub fn print(&self) -> (r: String)
        ensures
            r@ == format_lesson_spec(self@),
    {
        proof {
            use_type_invariant(&*self);
        }
        let mut out = String::new();
        push_two_digits(&mut out, self.start_m / 60);
        out.append(":");
        push_two_digits(&mut out, self.start_m % 60);
        out.append(" \\- ");
        push_two_digits(&mut out, self.end_m / 60);
        out.append(":");
        push_two_digits(&mut out, self.end_m % 60);
        out.append("\t[");
        append_escaped(&mut out, self.name.as_str());
        out.append("](");
        out.append(self.link.as_str());
        out.append(") \\(");
        out.append(self.lesson_type.as_str());
        out.append("\\)");
        match &self.password {
            Some(pwd) => {
                out.append(" Пароль: ");
                out.append(pwd.as_str());
            },
            None => {},
        }
        proof {
            assert(out@ =~= format_lesson_spec(self@));
        }
        out
    }
}

/// A lesson is visible when it is unrestricted or its group passes the
/// caller's profile.
pub open spec fn lesson_visible(p: UserGroupsView, l: LessonView) -> bool {
    match l.group {
        None => true,
        Some(g) => group_passes(p, g),
    }
}

/// Law: a lesson with no group restriction is visible to every caller,
/// whatever the profile holds.
pub proof fn lemma_unrestricted_lesson_visible(p: UserGroupsView, l: LessonView)
    requires
        l.group is None,
    ensures
        lesson_visible(p, l),
{
}

/// The lessons of `ls` that the profile lets pass, in input order.
pub open spec fn visible_lessons(p: UserGroupsView, ls: Seq<Lesson>) -> Seq<Lesson>
    decreases ls.len(),
{
    if ls.len() == 0 {
        Seq::<Lesson>::empty()
    } else {
        let rest = visible_lessons(p, ls.drop_last());
        if lesson_visible(p, ls.last()@) {
            rest.push(ls.last())
        } else {
            rest
        }
    }
}

/// Law: filtering keeps nothing a profile may not see and loses nothing it
/// may: every kept lesson is visible, and every visible lesson is kept.
pub proof fn lemma_visible_lessons_members(p: UserGroupsView, ls: Seq<Lesson>)
    ensures
        forall|i: int|
            0 <= i < visible_lessons(p, ls).len() ==> lesson_visible(
                p,
                #[trigger] visible_lessons(p, ls)[i]@,
            ),
        forall|i: int|
            0 <= i < ls.len() && lesson_visible(p, ls[i]@) ==> visible_lessons(p, ls).contains(
                #[trigger] ls[i],
            ),
    decreases ls.len(),
{
    if ls.len() > 0 {
        lemma_visible_lessons_members(p, ls.drop_last());
        let rest = visible_lessons(p, ls.drop_last());
        let out = visible_lessons(p, ls);
        assert forall|i: int|
            0 <= i < ls.len() && lesson_visible(p, ls[i]@) implies out.contains(
            #[trigger] ls[i],
        ) by {
            if i < ls.len() - 1 {
                assert(ls.drop_last()[i] == ls[i]);
                assert(rest.contains(ls[i]));
                let j = choose|j: int| 0 <= j < rest.len() && rest[j] == ls[i];
                assert(out[j] == ls[i]);
            } else {
                assert(ls.last() == ls[i]);
                assert(out[out.len() - 1] == ls[i]);
            }
        }
    }
}

/// Filters one day's fetched lessons down to those the caller's profile
/// lets pass, keeping the delivered order.
pub fn filter_day_timetable(lessons: Vec<Lesson>, groups: &UserGroups) -> (r: Vec<Lesson>)
    ensures
        r@ == visible_lessons(groups@, lessons@),
{
    let mut out: Vec<Lesson> = Vec::new();
    let n: usize = lessons.len();
    proof {
        assert(out@ =~= visible_lessons(groups@, lessons@.subrange(0, 0)));
    }
    for i in 0..n
        invariant
            n == lessons@.len(),
            out@ == visible_lessons(groups@, lessons@.subrange(0, i as int)),
    {
        proof {
            let sub1 = lessons@.subrange(0, i + 1);
            assert(sub1.drop_last() =~= lessons@.subrange(0, i as int));
            assert(sub1.last() == lessons@[i as int]);
        }
        let visible = match &lessons[i].group {
            None => true,
            Some(g) => groups.lets_group_pass(g.as_str()),
        };
        if visible {
            out.push(lessons[i].clone());
        }
    }
    proof {
        assert(lessons@.subrange(0, n as int) =~= lessons@);
    }
    out
}

/// The line-per-lesson text of a non-empty day, lines joined by newlines.
pub open spec fn format_day_lines(ls: Seq<Lesson>) -> Seq<char>
    decreases ls.len(),
{
    if ls.len() == 0 {
        Seq::<char>::empty()
    } else if ls.len() == 1 {
        format_lesson_spec(ls[0]@)
    } else {
        format_day_lines(ls.drop_last()) + "\n"@ + format_lesson_spec(ls.last()@)
    }
}

/// The whole day as text: one line per lesson in input order, or the
/// no-lessons sentinel when the day is empty.
pub open spec fn format_day_spec(ls: Seq<Lesson>) -> Seq<char> {
    if ls.len() == 0 {
        "В этот день нет уроков"@
    } else {
        format_day_lines(ls)
    }
}

/// Renders a day's lesson list for display.
pub fn print_day(lessons: &[Lesson]) -> (r: String)
    ensures
        r@ == format_day_spec(lessons@),
{
    let n: usize = lessons.len();
    if n == 0 {
        return String::from_str("В этот день нет уроков");
    }
    let mut out = String::new();
    for i in 0..n
        invariant
            n == lessons@.len(),
            out@ == format_day_lines(lessons@.subrange(0, i as int)),
    {
        proof {
            let sub1 = lessons@.subrange(0, i + 1);
            assert(sub1.drop_last() =~= lessons@.subrange(0, i as int));
            assert(sub1.last() == lessons@[i as int]);
            assert(sub1[0] == lessons@[0]);
        }
        if i > 0 {
            out.append("\n");
        }
        let line = lessons[i].print();
        out.append(line.as_str());
        proof {
            assert(out@ =~= format_day_lines(lessons@.subrange(0, i + 1)));
        }
    }
    proof {
        assert(lessons@.subrange(0, n as int) =~= lessons@);
    }
    out
}

/// The first lesson of `ls`, in delivered order, that is still upcoming at
/// time `t`; nothing when every lesson has already begun.
pub open spec fn next_lesson_spec(ls: Seq<Lesson>, t: TimeOfDay) -> Option<Lesson>
    decreases ls.len(),
{
    if ls.len() == 0 {
        None
    } else if is_next_spec(ls[0]@, t) {
        Some(ls[0])
    } else {
        next_lesson_spec(ls.drop_first(), t)
    }
}

/// Scans the day's lessons in order for the first upcoming one.
pub fn find_next_lesson<'a>(lessons: &'a [Lesson], time: &TimeOfDay) -> (r: Option<&'a Lesson>)
    ensures
        match r {
            Some(l) => next_lesson_spec(lessons@, *time) == Some(*l),
            None => next_lesson_spec(lessons@, *time) is None,
        },
{
    let n: usize = lessons.len();
    proof {
        assert(lessons@.subrange(0, n as int) =~= lessons@);
    }
    for i in 0..n
        invariant
            n == lessons@.len(),
            next_lesson_spec(lessons@, *time) == next_lesson_spec(
                lessons@.subrange(i as int, n as int),
                *time,
            ),
    {
        proof {
            let suf = lessons@.subrange(i as int, n as int);
            assert(suf[0] == lessons@[i as int]);
            assert(suf.drop_first() =~= lessons@.subrange(i + 1, n as int));
        }
        if lessons[i].is_next(time) {
            return Some(&lessons[i]);
        }
    }
    None
}

/// The next-lesson reply: the upcoming lesson's display line, or the
/// no-more-lessons sentinel when every lesson has started.
pub fn next_lesson_message(lessons: &[Lesson], time: &TimeOfDay) -> (r: String)
    ensures
        match next_lesson_spec(lessons@, *time) {
            Some(l) => r@ == format_lesson_spec(l@),
            None => r@ == "Сегодня больше нет уроков"@,
        },
{
    match find_next_lesson(lessons, time) {
        Some(l) => l.print(),
        None => String::from_str("Сегодня больше нет уроков"),
    }
}

} // verus!
