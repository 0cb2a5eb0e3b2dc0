//! What follows from the times of a day: the commands that are still to
//! run, the time that comes next, and where the present moment lies among
//! the times.
use crate::calendar::is_valid_timestamp;
use crate::types::{PraytimeType, PraytimesOutput};
use vstd::prelude::*;

verus! {

/// A command to run at a distance from a time of the day.
#[derive(Debug)]
pub struct PraytimeCmd {
    /// Seconds after the time; negative for before.
    pub time_diff: i32,
    pub cmd: String,
    pub praytime: PraytimeType,
}

/// A command with the time it belongs to and the moment at which it runs.
#[derive(Debug)]
pub struct ExecutablePraytime {
    pub command: PraytimeCmd,
    pub praytime_type: PraytimeType,
    /// The timestamp at which the command runs.
    pub execution_date: i64,
    /// The timestamp of the time itself.
    pub datetime: i64,
}

/// The moment at which `command` runs for a time at `datetime`.
pub open spec fn execution_time(command: PraytimeCmd, datetime: i64) -> int {
    datetime + command.time_diff * 1000
}

/// `command` made ready for a time of its kind.
pub open spec fn executable(command: PraytimeCmd, kind: PraytimeType, datetime: i64)
    -> ExecutablePraytime {
    ExecutablePraytime {
        command,
        praytime_type: kind,
        execution_date: execution_time(command, datetime) as i64,
        datetime,
    }
}

/// Whether `command` belongs to the entry and runs after `now`.
pub open spec fn is_runnable(command: PraytimeCmd, entry: (PraytimeType, i64), now: i64) -> bool {
    entry.0 == command.praytime && execution_time(command, entry.1) > now
}

/// What `command` has to run: one entry for each time of its kind whose
/// moment lies after `now`, in the order of the times.
pub open spec fn runnable_for(command: PraytimeCmd, praytimes: Seq<(PraytimeType, i64)>, now: i64)
    -> Seq<ExecutablePraytime>
    decreases praytimes.len(),
{
    if praytimes.len() == 0 {
        seq![]
    } else {
        let before = runnable_for(command, praytimes.drop_last(), now);
        if is_runnable(command, praytimes.last(), now) {
            before.push(executable(command, praytimes.last().0, praytimes.last().1))
        } else {
            before
        }
    }
}

/// What all the commands have to run: command by command in their order,
/// and for each command time by time.
pub open spec fn runnable(
    commands: Seq<PraytimeCmd>,
    praytimes: Seq<(PraytimeType, i64)>,
    now: i64,
) -> Seq<ExecutablePraytime>
    decreases commands.len(),
{
    if commands.len() == 0 {
        seq![]
    } else {
        runnable(commands.drop_last(), praytimes, now) + runnable_for(
            commands.last(),
            praytimes,
            now,
        )
    }
}

/// Every time of the list is a valid timestamp.
pub open spec fn all_valid(praytimes: Seq<(PraytimeType, i64)>) -> bool {
    forall|i: int| 0 <= i < praytimes.len() ==> is_valid_timestamp(#[trigger] praytimes[i].1 as int)
}

/// The first entry that does not lie before `now`.
pub open spec fn first_from(praytimes: Seq<(PraytimeType, i64)>, now: i64) -> Option<
    (PraytimeType, i64),
>
    decreases praytimes.len(),
{
    if praytimes.len() == 0 {
        None
    } else if praytimes.first().1 >= now {
        Some(praytimes.first())
    } else {
        first_from(praytimes.drop_first(), now)
    }
}

/// Whether `now` lies strictly between two times that are both present.
pub open spec fn lies_between(earlier: Option<i64>, later: Option<i64>, now: i64) -> bool {
    earlier matches Some(a) && later matches Some(b) && a < now && now < b
}

/// For each of the ten gaps around the nine times of a day, whether `now`
/// lies in it: before imsak, between each time and the next, and after
/// midnight. A gap next to an absent time holds nothing.
pub open spec fn gaps(times: PraytimesOutput, now: i64) -> Seq<bool> {
    seq![
        times.imsak matches Some(t) && t > now,
        lies_between(times.imsak, times.fajr, now),
        lies_between(times.fajr, times.sunrise, now),
        lies_between(times.sunrise, times.dhuhr, now),
        lies_between(times.dhuhr, times.asr, now),
        lies_between(times.asr, times.sunset, now),
        lies_between(times.sunset, times.maghrib, now),
        lies_between(times.maghrib, times.isha, now),
        lies_between(times.isha, times.midnight, now),
        times.midnight matches Some(t) && t < now,
    ]
}

impl PraytimeCmd {
    /// A copy of this command.
    pub fn duplicate(&self) -> (r: PraytimeCmd)
        ensures
            r == *self,
    {
        PraytimeCmd { time_diff: self.time_diff, cmd: self.cmd.clone(), praytime: self.praytime }
    }
}

impl ExecutablePraytime {
    /// How long to wait from `now` until the command runs, in
    /// milliseconds; nothing where its moment has passed.
    pub fn delay(&self, now: i64) -> (r: Option<u64>)
        ensures
            r == if self.execution_date >= now {
                Some((self.execution_date - now) as u64)
            } else {
                None
            },
    {
        if self.execution_date >= now {
            let wait: i128 = self.execution_date as i128 - now as i128;
            Some(wait as u64)
        } else {
            None
        }
    }
}

/// What the commands have to run after `now` for the given times.
pub fn get_runnable_commands(
    commands: &Vec<PraytimeCmd>,
    praytimes: &Vec<(PraytimeType, i64)>,
    now: i64,
) -> (r: Vec<ExecutablePraytime>)
    requires
        all_valid(praytimes@),
    ensures
        r@ == runnable(commands@, praytimes@, now),
{
    let mut r: Vec<ExecutablePraytime> = Vec::new();
    let mut i: usize = 0;
    while i < commands.len()
        invariant
            i <= commands.len(),
            all_valid(praytimes@),
            r@ == runnable(commands@.take(i as int), praytimes@, now),
        decreases commands.len() - i,
    {
        let command = &commands[i];
        let ghost done = r@;
        let mut j: usize = 0;
        while j < praytimes.len()
            invariant
                j <= praytimes.len(),
                all_valid(praytimes@),
                r@ == done + runnable_for(*command, praytimes@.take(j as int), now),
            decreases praytimes.len() - j,
        {
            let kind = praytimes[j].0;
            let datetime = praytimes[j].1;
            proof {
                assert(is_valid_timestamp(praytimes@[j as int].1 as int));
                assert(praytimes@.take(j + 1).drop_last() == praytimes@.take(j as int));
                assert(praytimes@.take(j + 1).last() == praytimes@[j as int]);
            }
            let execution_date: i64 = datetime + command.time_diff as i64 * 1000;
            if kind == command.praytime && execution_date > now {
                r.push(
                    ExecutablePraytime {
                        command: command.duplicate(),
                        praytime_type: kind,
                        execution_date,
                        datetime,
                    },
                );
            }
            j += 1;
        }
        proof {
            assert(praytimes@.take(praytimes.len() as int) == praytimes@);
            assert(commands@.take(i + 1).drop_last() == commands@.take(i as int));
            assert(commands@.take(i + 1).last() == commands@[i as int]);
        }
        i += 1;
    }
    proof {
        assert(commands@.take(commands.len() as int) == commands@);
    }
    r
}

/// The first of the times that does not lie before `now`.
pub fn next_praytime(praytimes: &Vec<(PraytimeType, i64)>, now: i64) -> (r: Option<
    (PraytimeType, i64),
>)
    ensures
        r == first_from(praytimes@, now),
{
    let mut i: usize = 0;
    proof {
        assert(praytimes@.skip(0) == praytimes@);
    }
    while i < praytimes.len()
        invariant
            i <= praytimes.len(),
            first_from(praytimes@, now) == first_from(praytimes@.skip(i as int), now),
        decreases praytimes.len() - i,
    {
        proof {
            assert(praytimes@.skip(i as int).first() == praytimes@[i as int]);
            assert(praytimes@.skip(i as int).drop_first() == praytimes@.skip(i + 1));
        }
        if praytimes[i].1 >= now {
            return Some(praytimes[i]);
        }
        i += 1;
    }
    proof {
        assert(praytimes@.skip(praytimes.len() as int).len() == 0);
    }
    None
}

/// Whether `now` lies strictly between two times that are both present.
fn between(earlier: Option<i64>, later: Option<i64>, now: i64) -> (r: bool)
    ensures
        r == lies_between(earlier, later, now),
{
    match (earlier, later) {
        (Some(a), Some(b)) => a < now && now < b,
        _ => false,
    }
}

/// For each of the ten gaps around the nine times of a day, whether `now`
/// lies in it.
pub fn current_gaps(times: &PraytimesOutput, now: i64) -> (r: Vec<bool>)
    ensures
        r@ == gaps(*times, now),
{
    let mut r: Vec<bool> = Vec::new();
    r.push(
        match times.imsak {
            Some(t) => t > now,
            None => false,
        },
    );
    r.push(between(times.imsak, times.fajr, now));
    r.push(between(times.fajr, times.sunrise, now));
    r.push(between(times.sunrise, times.dhuhr, now));
    r.push(between(times.dhuhr, times.asr, now));
    r.push(between(times.asr, times.sunset, now));
    r.push(between(times.sunset, times.maghrib, now));
    r.push(between(times.maghrib, times.isha, now));
    r.push(between(times.isha, times.midnight, now));
    r.push(
        match times.midnight {
            Some(t) => t < now,
            None => false,
        },
    );
    r
}

/// What `next_praytime` finds does not lie before `now`, and everything
/// ahead of it in the list does.
pub proof fn lemma_first_from(praytimes: Seq<(PraytimeType, i64)>, now: i64)
    ensures
        match first_from(praytimes, now) {
            Some(found) => exists|i: int|
                0 <= i < praytimes.len() && praytimes[i] == found && found.1 >= now && forall|
                    j: int,
                | 0 <= j < i ==> (#[trigger] praytimes[j]).1 < now,
            None => forall|j: int| 0 <= j < praytimes.len() ==> (#[trigger] praytimes[j]).1 < now,
        },
    decreases praytimes.len(),
{
    if praytimes.len() == 0 {
    } else if praytimes.first().1 >= now {
        assert(praytimes[0] == praytimes.first());
    } else {
        let rest = praytimes.drop_first();
        lemma_first_from(rest, now);
        match first_from(rest, now) {
            Some(found) => {
                let i = choose|i: int|
                    0 <= i < rest.len() && rest[i] == found && found.1 >= now && forall|j: int|
                        0 <= j < i ==> (#[trigger] rest[j]).1 < now;
                assert(praytimes[i + 1] == rest[i]);
                assert forall|j: int| 0 <= j < i + 1 implies (#[trigger] praytimes[j]).1 < now by {
                    if j > 0 {
                        assert(praytimes[j] == rest[j - 1]);
                    }
                }
            },
            None => {
                assert forall|j: int| 0 <= j < praytimes.len() implies (#[trigger] praytimes[j]).1
                    < now by {
                    if j > 0 {
                        assert(praytimes[j] == rest[j - 1]);
                    }
                }
            },
        }
    }
}

} // verus!
