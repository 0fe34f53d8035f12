//! The fanotify flag and constant values, mapped one to one from the
//! kernel's interface definitions.

use vstd::prelude::*;

verus! {

/* events that user space can register for */

/// A file or directory was accessed (read).
pub const FAN_ACCESS: u64 = 0x00000001;

/// A file was modified (write).
pub const FAN_MODIFY: u64 = 0x00000002;

/// Metadata for a file or directory changed.
pub const FAN_ATTRIB: u64 = 0x00000004;

/// A writable file was closed.
pub const FAN_CLOSE_WRITE: u64 = 0x00000008;

/// A read-only file or directory was closed.
pub const FAN_CLOSE_NOWRITE: u64 = 0x00000010;

/// A file or directory was opened.
pub const FAN_OPEN: u64 = 0x00000020;

/// A file or directory was moved from a marked parent directory.
pub const FAN_MOVED_FROM: u64 = 0x00000040;

/// A file or directory was moved to a marked parent directory.
pub const FAN_MOVED_TO: u64 = 0x00000080;

/// A child file or directory was created in a marked parent.
pub const FAN_CREATE: u64 = 0x00000100;

/// A child file or directory was deleted in a marked parent.
pub const FAN_DELETE: u64 = 0x00000200;

/// A marked file or directory itself was deleted.
pub const FAN_DELETE_SELF: u64 = 0x00000400;

/// A marked file or directory itself was moved.
pub const FAN_MOVE_SELF: u64 = 0x00000800;

/// A file was opened with the intent to be executed.
pub const FAN_OPEN_EXEC: u64 = 0x00001000;

/// The event queue exceeded its limit; the record carries no descriptor.
pub const FAN_Q_OVERFLOW: u64 = 0x00004000;

/// A filesystem error was detected.
pub const FAN_FS_ERROR: u32 = 0x00008000;

/// Permission to open a file or directory was requested.
pub const FAN_OPEN_PERM: u64 = 0x00010000;

/// Permission to read a file or directory was requested.
pub const FAN_ACCESS_PERM: u64 = 0x00020000;

/// Permission to open a file for execution was requested.
pub const FAN_OPEN_EXEC_PERM: u64 = 0x00040000;

/// Events for the immediate children of marked directories are wanted.
pub const FAN_EVENT_ON_CHILD: u64 = 0x08000000;

/// A file was renamed.
pub const FAN_RENAME: u64 = 0x10000000;

/// Events against directories themselves are wanted.
pub const FAN_ONDIR: u64 = 0x40000000;

/* helper events */

/// A file was closed, writable or not.
pub const FAN_CLOSE: u64 = FAN_CLOSE_WRITE | FAN_CLOSE_NOWRITE;

/// A file or directory was moved, from or to.
pub const FAN_MOVE: u64 = FAN_MOVED_FROM | FAN_MOVED_TO;

/* flags used for the group-initialization call */

/// Set the close-on-exec flag on the new descriptor.
pub const FAN_CLOEXEC: u32 = 0x00000001;

/// Make reads from the descriptor non-blocking.
pub const FAN_NONBLOCK: u32 = 0x00000002;

/* notification classes; these are not single bits */

/// Receive only notification events; the default class.
pub const FAN_CLASS_NOTIF: u32 = 0x00000000;

/// Receive permission events after files hold their final content.
pub const FAN_CLASS_CONTENT: u32 = 0x00000004;

/// Receive permission events before files hold their final content.
pub const FAN_CLASS_PRE_CONTENT: u32 = 0x00000008;

/// Remove the limit on the length of the event queue.
pub const FAN_UNLIMITED_QUEUE: u32 = 0x00000010;

/// Remove the limit on the number of marks.
pub const FAN_UNLIMITED_MARKS: u32 = 0x00000020;

/// Generate audit log records for permission mediation.
pub const FAN_ENABLE_AUDIT: u32 = 0x00000040;

/* response values for permission events */

/// Allow the file operation.
pub const FAN_ALLOW: u32 = 0x01;

/// Deny the file operation.
pub const FAN_DENY: u32 = 0x02;

/// Bit set on a response to request an audit record for the decision.
pub const FAN_AUDIT: u32 = 0x10;

/// The descriptor value carried by a queue-overflow record.
pub const FAN_NOFD: i32 = -1;

/* file status flags for descriptors opened for events */

/// Open the descriptors read-only.
pub const O_RDONLY: u32 = 0;

/// Open the descriptors write-only.
pub const O_WRONLY: u32 = 1;

/// Open the descriptors for reading and writing.
pub const O_RDWR: u32 = 2;

/// Open the descriptors in append mode.
pub const O_APPEND: u32 = 0o2000;

/// Open the descriptors in non-blocking mode.
pub const O_NONBLOCK: u32 = 0o4000;

/// Writes through the descriptors complete with data integrity.
pub const O_DSYNC: u32 = 0o10000;

/// Support files exceeding two gigabytes.
pub const O_LARGEFILE: u32 = 0x40000;

/// Do not update the last-access time on reads.
pub const O_NOATIME: u32 = 0o1000000;

/// Set the close-on-exec flag on the descriptors.
pub const O_CLOEXEC: u32 = 0o2000000;

/// Directory-descriptor value that names the current working directory.
pub const AT_FDCWD: i32 = -100;

/* flags that pick the record format */

/// Report a pidfd for the originating process.
pub const FAN_REPORT_PIDFD: u32 = 0x00000080;

/// Report the originating thread id rather than the process id.
pub const FAN_REPORT_TID: u32 = 0x00000100;

/// Identify non-directory objects by file handles.
pub const FAN_REPORT_FID: u32 = 0x00000200;

/// Identify directory objects by file handles.
pub const FAN_REPORT_DIR_FID: u32 = 0x00000400;

/// Report the directory entry name along with the directory handle.
pub const FAN_REPORT_NAME: u32 = 0x00000800;

/// Report the identifier of the child a directory event names.
pub const FAN_REPORT_TARGET_FID: u32 = 0x00001000;

/// Directory handles with entry names; name reporting needs both bits.
pub const FAN_REPORT_DFID_NAME: u32 = FAN_REPORT_DIR_FID | FAN_REPORT_NAME;

/// Child identifiers too; they need every other identifier bit.
pub const FAN_REPORT_DFID_NAME_TARGET: u32 = FAN_REPORT_DFID_NAME | FAN_REPORT_FID
    | FAN_REPORT_TARGET_FID;

/* flags used for the mark-modification call */

/// Add the events in the mask to the mark.
pub const FAN_MARK_ADD: u32 = 0x00000001;

/// Remove the events in the mask from the mark.
pub const FAN_MARK_REMOVE: u32 = 0x00000002;

/// Mark a symbolic link itself rather than its target.
pub const FAN_MARK_DONT_FOLLOW: u32 = 0x00000004;

/// Fail unless the marked object is a directory.
pub const FAN_MARK_ONLYDIR: u32 = 0x00000008;

/// Add to or remove from the ignore mask instead.
pub const FAN_MARK_IGNORED_MASK: u32 = 0x00000020;

/// Keep the ignore mask across modify events.
pub const FAN_MARK_IGNORED_SURV_MODIFY: u32 = 0x00000040;

/// Remove all marks of the selected kind from the group.
pub const FAN_MARK_FLUSH: u32 = 0x00000080;

/// Let the kernel evict the mark under memory pressure.
pub const FAN_MARK_EVICTABLE: u32 = 0x00000200;

/// Use the independent ignore-mask interface.
pub const FAN_MARK_IGNORE: u32 = 0x00000400;

/* these pick what kind of object is marked; not single bits */

/// Mark the inode named by the path; the default kind.
pub const FAN_MARK_INODE: u32 = 0x00000000;

/// Mark the whole mount containing the path.
pub const FAN_MARK_MOUNT: u32 = 0x00000010;

/// Mark the whole filesystem containing the path.
pub const FAN_MARK_FILESYSTEM: u32 = 0x00000100;

/// Ignore with survival across modify, as non-inode marks require.
pub const FAN_MARK_IGNORE_SURV: u32 = FAN_MARK_IGNORE | FAN_MARK_IGNORED_SURV_MODIFY;

/* record-format constants */

/// The structure version every decoded record must carry.
pub const FANOTIFY_METADATA_VERSION: u32 = 3;

/// Extension kind: file handle of the object itself.
pub const FAN_EVENT_INFO_TYPE_FID: u8 = 1;

/// Extension kind: directory handle followed by an entry name.
pub const FAN_EVENT_INFO_TYPE_DFID_NAME: u8 = 2;

/// Extension kind: directory handle without a name.
pub const FAN_EVENT_INFO_TYPE_DFID: u8 = 3;

/* errno values surfaced through the error types */

/// Operation not permitted.
pub const EPERM: i32 = 1;

/// Try again; a non-blocking read found no data.
pub const EAGAIN: i32 = 11;

/// Out of memory.
pub const ENOMEM: i32 = 12;

/// Invalid argument.
pub const EINVAL: i32 = 22;

/// Too many open files.
pub const EMFILE: i32 = 24;

/// Function not implemented.
pub const ENOSYS: i32 = 38;

} // verus!
