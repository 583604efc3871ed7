//! The public listing: its page size, its search text and where the next page
//! starts.
use vstd::prelude::*;
use crate::model::WebError;
use crate::settings::RuntimeSettings;
use crate::text::{is_blank, opt_str_view, trim};

verus! {

/// The public listing needs public browsing to be on.
pub fn ensure_public_browse(settings: &RuntimeSettings) -> (r: Result<(), WebError>)
    ensures
        settings.features.public_browse ==> r is Ok,
        !settings.features.public_browse ==> r matches Err(WebError::NotFound),
{
    if settings.features.public_browse {
        Ok(())
    } else {
        Err(WebError::NotFound)
    }
}

/// Items per page: the configured page size, kept between 1 and 100.
pub fn page_limit(settings: &RuntimeSettings) -> (r: i64)
    ensures
        r == if settings.discovery.page_size < 1 {
            1
        } else if settings.discovery.page_size > 100 {
            100
        } else {
            settings.discovery.page_size as int
        },
{
    let p = settings.discovery.page_size;
    if p < 1 {
        1
    } else if p > 100 {
        100
    } else {
        p as i64
    }
}

/// The search text, when it is not blank.
pub fn search_query(q: Option<&str>) -> (r: Option<&str>)
    ensures
        opt_str_view(r) == match opt_str_view(q) {
            Some(t) => if trim(t).len() == 0 {
                None
            } else {
                Some(t)
            },
            None => None,
        },
{
    match q {
        Some(t) => if is_blank(t) {
            None
        } else {
            Some(t)
        },
        None => None,
    }
}

/// The smallest of some times.
pub open spec fn min_time(times: Seq<i64>) -> Option<i64>
    decreases times.len(),
{
    if times.len() == 0 {
        None
    } else {
        match min_time(times.drop_last()) {
            None => Some(times.last()),
            Some(m) => if times.last() < m {
                Some(times.last())
            } else {
                Some(m)
            },
        }
    }
}

fn min_of(times: &Vec<i64>) -> (r: Option<i64>)
    ensures
        r == min_time(times@),
{
    let mut best: Option<i64> = None;
    let mut i: usize = 0;
    while i < times.len()
        invariant
            i <= times.len(),
            best == min_time(times@.take(i as int)),
        decreases times.len() - i,
    {
        assert(times@.take(i + 1).drop_last() == times@.take(i as int));
        let t = times[i];
        best = match best {
            None => Some(t),
            Some(m) => if t < m {
                Some(t)
            } else {
                Some(m)
            },
        };
        i += 1;
    }
    assert(times@.take(times.len() as int) == times@);
    best
}

/// Where the next page starts: the oldest creation time among the files and
/// pastes shown; none when the page is empty.
pub fn next_cursor(file_times: &Vec<i64>, paste_times: &Vec<i64>) -> (r: Option<i64>)
    ensures
        r == min_time(file_times@ + paste_times@),
        r matches Some(m) ==> (forall|i: int|
            0 <= i < (file_times@ + paste_times@).len() ==> m <= #[trigger] (file_times@
                + paste_times@)[i]),
{
    let mut all: Vec<i64> = file_times.clone();
    let mut j: usize = 0;
    while j < paste_times.len()
        invariant
            j <= paste_times.len(),
            all@ == file_times@ + paste_times@.take(j as int),
        decreases paste_times.len() - j,
    {
        all.push(paste_times[j]);
        assert(all@ =~= file_times@ + paste_times@.take(j + 1));
        j += 1;
    }
    assert(paste_times@.take(paste_times.len() as int) == paste_times@);
    proof {
        lemma_min_time_is_least(all@);
    }
    min_of(&all)
}

/// The smallest time is no larger than any of the times.
pub proof fn lemma_min_time_is_least(times: Seq<i64>)
    ensures
        min_time(times) matches Some(m) ==> forall|i: int| 0 <= i < times.len() ==> m <= #[trigger] times[i],
        times.len() > 0 ==> min_time(times) is Some,
    decreases times.len(),
{
    if times.len() > 0 {
        lemma_min_time_is_least(times.drop_last());
        let m = min_time(times).unwrap();
        assert forall|i: int| 0 <= i < times.len() implies m <= #[trigger] times[i] by {
            if i < times.len() - 1 {
                assert(times.drop_last()[i] == times[i]);
            }
        }
    }
}

} // verus!
