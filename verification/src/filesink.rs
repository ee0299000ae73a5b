//! The rotating, retention-managed file archive, as a verified state
//! machine.
//!
//! The sink tracks the calendar day and byte count of the file it appends
//! to. A write first decides rotation: the day has changed, or the byte
//! count has reached the size threshold. Rotation names the file for the
//! current day — so a same-day, size-triggered rotation reopens the same
//! name and merely continues appending, the size threshold being advisory —
//! and is the only occasion on which a retention sweep runs. A file whose
//! age exactly equals the retention window is kept: only strictly older
//! files are deleted. The surrounding I/O layer opens, appends, flushes and
//! deletes as instructed, and reports sizes back.

use vstd::prelude::*;
use crate::dates::{file_name_for_day, spec_file_name, MAX_DAY};

verus! {

/// Default size threshold: 100 MiB.
pub const DEFAULT_MAX_FILE_SIZE: u64 = 100 * 1024 * 1024;

/// Default retention window, in days.
pub const DEFAULT_RETENTION_DAYS: u64 = 7;

/// An explicit flush is requested every this many successful writes.
pub const FLUSH_INTERVAL: u64 = 100;

/// What one write asks of the I/O layer before appending.
pub struct WritePlan {
    /// Close the current file and open `file_name` before appending.
    pub rotate: bool,
    /// The file to open, present exactly when rotating.
    pub file_name: Option<String>,
    /// Sweep the archive directory, deleting files of days strictly before
    /// this day; present exactly when rotating.
    pub retention_cutoff: Option<u64>,
}

/// The file archive's bookkeeping state.
pub struct FileSink {
    pub current_day: u64,
    pub current_size: u64,
    pub max_file_size: u64,
    pub retention_days: u64,
    pub write_count: u64,
    pub file_open: bool,
}

/// The first day the retention window still keeps, `retention_days` before
/// `today`.
pub open spec fn spec_cutoff(today: u64, retention_days: u64) -> u64 {
    if today >= retention_days {
        (today - retention_days) as u64
    } else {
        0
    }
}

impl FileSink {
    /// Rotation is due when the calendar day has changed or the byte count
    /// has reached the threshold.
    pub open spec fn spec_needs_rotation(self, today: u64) -> bool {
        today != self.current_day || self.current_size >= self.max_file_size
    }

    /// A fresh sink for `today`, with the default threshold and retention
    /// window and no file open yet.
    pub fn new(today: u64) -> (r: FileSink)
        ensures
            r.current_day == today,
            r.current_size == 0,
            r.max_file_size == DEFAULT_MAX_FILE_SIZE,
            r.retention_days == DEFAULT_RETENTION_DAYS,
            r.write_count == 0,
            !r.file_open,
    {
        FileSink {
            current_day: today,
            current_size: 0,
            max_file_size: DEFAULT_MAX_FILE_SIZE,
            retention_days: DEFAULT_RETENTION_DAYS,
            write_count: 0,
            file_open: false,
        }
    }

    /// Decide what a write must do first: whether to rotate, onto which
    /// file, and which days the retention sweep may delete. A retention
    /// sweep happens exactly when rotation does.
    pub fn plan_write(&self, today: u64) -> (r: WritePlan)
        requires
            today <= MAX_DAY,
        ensures
            r.rotate == self.spec_needs_rotation(today),
            r.rotate ==> (r.file_name matches Some(n) && n@ == spec_file_name(today as int)),
            r.rotate ==> r.retention_cutoff == Some(spec_cutoff(today, self.retention_days)),
            !r.rotate ==> r.file_name is None && r.retention_cutoff is None,
    {
        if today != self.current_day || self.current_size >= self.max_file_size {
            let cutoff: u64 = if today >= self.retention_days {
                today - self.retention_days
            } else {
                0
            };
            WritePlan {
                rotate: true,
                file_name: Some(file_name_for_day(today)),
                retention_cutoff: Some(cutoff),
            }
        } else {
            WritePlan { rotate: false, file_name: None, retention_cutoff: None }
        }
    }

    /// Record the outcome of a rotation (or of the initial open): the sink
    /// now tracks `today`, and the byte count restarts from the size the
    /// opened file already had — `None` when the open failed, leaving the
    /// sink degraded with no file.
    pub fn apply_rotation(&mut self, today: u64, opened_size: Option<u64>)
        ensures
            final(self).current_day == today,
            final(self).current_size == match opened_size {
                Some(n) => n,
                None => 0,
            },
            final(self).file_open == opened_size is Some,
            final(self).max_file_size == old(self).max_file_size,
            final(self).retention_days == old(self).retention_days,
            final(self).write_count == old(self).write_count,
    {
        self.current_day = today;
        match opened_size {
            Some(n) => {
                self.current_size = n;
                self.file_open = true;
            },
            None => {
                self.current_size = 0;
                self.file_open = false;
            },
        }
    }

    /// Record one successfully appended line of `line_len` bytes; the result
    /// says whether the I/O layer should flush now, which it does every
    /// `FLUSH_INTERVAL` writes.
    pub fn note_appended(&mut self, line_len: u64) -> (flush: bool)
        requires
            old(self).file_open,
            old(self).current_size + line_len <= u64::MAX,
            old(self).write_count < u64::MAX,
        ensures
            final(self).current_size == old(self).current_size + line_len,
            final(self).write_count == old(self).write_count + 1,
            flush == ((old(self).write_count + 1) % (FLUSH_INTERVAL as int) == 0),
            final(self).current_day == old(self).current_day,
            final(self).max_file_size == old(self).max_file_size,
            final(self).retention_days == old(self).retention_days,
            final(self).file_open,
    {
        self.current_size = self.current_size + line_len;
        self.write_count = self.write_count + 1;
        self.write_count % FLUSH_INTERVAL == 0
    }
}

/// Whether the retention sweep deletes a file of day `file_day`: exactly
/// when the file is strictly older than the retention window. A file whose
/// age equals the window to the day is kept.
pub fn should_delete(file_day: u64, today: u64, retention_days: u64) -> (r: bool)
    requires
        file_day + retention_days <= u64::MAX,
    ensures
        r == (file_day + retention_days < today),
{
    file_day + retention_days < today
}

} // verus!
