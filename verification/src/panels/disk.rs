//! The disk panel: mounted file systems, their use, and the reports of the
//! disk commands.

use vstd::prelude::*;
use crate::data::{bar, bar_text, capped, tenths, tenths_of};
use crate::effect::CommandOutput;
use crate::panels::nav::{clamp, clamp_index, step_down, step_up};
use crate::text::{concat, to_string};
use vstd::string::StringExecFns;

verus! {

/// A mounted file system.
pub struct DiskInfo {
    pub device: String,
    pub mount: String,
    pub fstype: String,
    /// Bytes in all.
    pub total: u64,
    /// Bytes in use: all that is not available.
    pub used: u64,
    pub available: u64,
    /// Use in tenths of a percent of the total.
    pub pct: u32,
}

impl DiskInfo {
    /// A file system's figures: `used` is what of `total` is not
    /// available (never below zero), `pct` its share of the total.
    pub fn new(device: String, mount: String, fstype: String, total: u64, available: u64) -> (d: DiskInfo)
        ensures
            d.device == device,
            d.mount == mount,
            d.fstype == fstype,
            d.total == total,
            d.available == available,
            d.used == (if total >= available { total - available } else { 0 }),
            d.pct == capped(tenths(d.used as nat, total as nat)),
    {
        let used = if total >= available { total - available } else { 0 };
        let pct = tenths_of(used, total);
        DiskInfo { device, mount, fstype, total, used, available, pct }
    }

    /// A copy of the row.
    pub fn copy(&self) -> (r: DiskInfo)
        ensures
            r == *self,
    {
        DiskInfo {
            device: self.device.clone(),
            mount: self.mount.clone(),
            fstype: self.fstype.clone(),
            total: self.total,
            used: self.used,
            available: self.available,
            pct: self.pct,
        }
    }

    /// The use of the file system as a bar of `width` cells.
    pub fn pct_bar(&self, width: usize) -> (s: String)
        ensures
            s@ == bar_text(self.pct, width as nat),
    {
        bar(self.pct, width)
    }
}

/// The disk panel.
pub struct DiskPanel {
    pub idx: usize,
    pub disks: Vec<DiskInfo>,
}

/// What unmounting reports: the command's output, else its error output,
/// else `"Unmounted <mount>"`; the error's text when it could not run.
pub open spec fn umount_report(mount: Seq<char>, out: CommandOutput) -> Seq<char> {
    match out {
        CommandOutput::Finished { stdout, stderr } => if stdout@.len() > 0 {
            stdout@
        } else if stderr@.len() > 0 {
            stderr@
        } else {
            "Unmounted "@ + mount
        },
        CommandOutput::Failed { error } => error@,
    }
}

/// What the disk-usage view shows: the `du` output, or `No data` when it
/// could not run.
pub open spec fn disk_usage_report(out: Option<Seq<char>>) -> Seq<char> {
    match out {
        Some(o) => o,
        None => "No data"@,
    }
}

impl DiskPanel {
    /// An empty panel; the disks arrive with the first snapshot.
    pub fn new() -> (p: DiskPanel)
        ensures
            p.idx == 0,
            p.disks@.len() == 0,
    {
        let mut p = DiskPanel { idx: 0, disks: Vec::new() };
        p.load();
        p
    }

    /// Shows a fresh snapshot, keeping the cursor on the list.
    pub fn update(&mut self, disks: Vec<DiskInfo>)
        ensures
            final(self).disks == disks,
            final(self).idx == clamp(old(self).idx, disks@.len()),
    {
        self.disks = disks;
        self.idx = clamp_index(self.idx, self.disks.len());
    }

    /// Refresh: the disks come with every snapshot, so nothing changes.
    pub fn load(&mut self)
        ensures
            *final(self) == *old(self),
    {
    }

    /// Moves the cursor up one row, unless it is at the top.
    pub fn move_up(&mut self)
        ensures
            *final(self) == (DiskPanel { idx: step_up(old(self).idx), ..*old(self) }),
    {
        if self.idx > 0 {
            self.idx = self.idx - 1;
        }
    }

    /// Moves the cursor down one row, unless it is on the last.
    pub fn move_down(&mut self)
        ensures
            *final(self) == (DiskPanel { idx: step_down(old(self).idx, old(self).disks@.len()), ..*old(self) }),
    {
        if self.idx < self.disks.len() && self.idx + 1 < self.disks.len() {
            self.idx = self.idx + 1;
        }
    }

    /// The file system under the cursor.
    pub fn current(&self) -> (r: Option<&DiskInfo>)
        ensures
            r matches Some(d) ==> self.idx < self.disks.len() && *d == self.disks@[self.idx as int],
            r is None ==> self.idx >= self.disks.len(),
    {
        if self.idx < self.disks.len() {
            Some(&self.disks[self.idx])
        } else {
            None
        }
    }
}

impl DiskPanel {
    /// What unmounting `mount` reports, given what `pkexec umount` gave
    /// (see `umount_report`).
    pub fn umount(&self, mount: &str, out: &CommandOutput) -> (r: String)
        ensures
            r@ == umount_report(mount@, *out),
    {
        match out {
            CommandOutput::Finished { stdout, stderr } => {
                if stdout.as_str().unicode_len() > 0 {
                    stdout.clone()
                } else if stderr.as_str().unicode_len() > 0 {
                    stderr.clone()
                } else {
                    to_string(&concat("Unmounted ", mount))
                }
            },
            CommandOutput::Failed { error } => error.clone(),
        }
    }

    /// What the disk-usage view shows, given the output of `du` (`None`
    /// when it could not run; see `disk_usage_report`).
    pub fn du_top(&self, out: Option<String>) -> (r: String)
        ensures
            r@ == disk_usage_report(
                match out {
                    Some(o) => Some(o@),
                    None => None,
                },
            ),
    {
        match out {
            Some(o) => o,
            None => String::from_str("No data"),
        }
    }
}

} // verus!
