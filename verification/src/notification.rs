//! A desktop notification: how it is read from a message of the desktop bus
//! and how it is laid out on the canvas.

use crate::framebuffer::{overlaid, FrameBuffer};
use crate::text::{draw_text, drawable, glyph_coverage, Font, RenderFailure};
use dbus::arg::TypeMismatchError;
use dbus::Message;
use vstd::prelude::*;

verus! {

/// A message of the desktop bus, as the `dbus` crate holds it.
#[verifier::external_type_specification]
#[verifier::external_body]
pub struct ExMessage(Message);

/// What the `dbus` crate reports where an argument of a message is missing
/// or of another type than was asked for.
#[verifier::external_type_specification]
#[verifier::external_body]
pub struct ExTypeMismatchError(TypeMismatchError);

/// Why a source had no item to show where one was due.
#[derive(Clone, Copy, Debug, PartialEq, Eq)]
pub enum SourceError {
    /// A message did not have the fields of a notification.
    Malformed,
}

/// Column at which both lines of a notification start.
pub const NOTIFICATION_X: u8 = 10;

/// Baseline of the title.
pub const TITLE_Y: u8 = 10;

/// Baseline of the body.
pub const CONTENT_Y: u8 = 20;

/// A notification as the desktop published it.
#[derive(Debug)]
pub struct Notification {
    pub title: String,
    pub content: String,
}

/// `frame` with the title of a notification drawn over it.
pub open spec fn with_title(frame: Seq<u8>, title: Seq<char>) -> Seq<u8> {
    overlaid(frame, glyph_coverage(title, Font::Large, 10, 10))
}

/// `frame` with the body of a notification drawn over it.
pub open spec fn with_content(frame: Seq<u8>, content: Seq<char>) -> Seq<u8> {
    overlaid(frame, glyph_coverage(content, Font::Small, 10, 20))
}

/// What `dbus::Message::read5` reads of a message as a `Notify` call: the
/// summary and the body, where the first five arguments of the message are
/// a string, an unsigned number and three more strings, and nothing where
/// one of them is missing or of another type.
pub uninterp spec fn notify_fields(message: Message) -> Option<(Seq<char>, Seq<char>)>;

/// `dbus::Message::read5` on the arguments of a `Notify` call: the name of
/// the sender, the number of the notification to replace, an icon, the
/// summary and the body. The last two are handed out. The contract names
/// what is read, which depends on the message alone; which messages can be
/// read is not stated.
#[verifier::external_body]
fn read_notify(message: &Message) -> (fields: Result<(String, String), TypeMismatchError>)
    ensures
        match fields {
            Ok((title, content)) => notify_fields(*message) == Some((title@, content@)),
            Err(_) => notify_fields(*message) is None,
        },
{
    match message.read5::<String, u32, String, String, String>() {
        Ok((_, _, _, title, content)) => Ok((title, content)),
        Err(e) => Err(e),
    }
}

impl Notification {
    /// The notification that a message holds: its title is the summary that
    /// is read from the message and its content the body. A message from
    /// which they cannot be read is malformed.
    pub fn try_from(value: Message) -> (parsed: Result<Notification, SourceError>)
        ensures
            match notify_fields(value) {
                Some((title, content)) => parsed.is_ok() && parsed.unwrap().title@ == title
                    && parsed.unwrap().content@ == content,
                None => parsed == Err::<Notification, SourceError>(SourceError::Malformed),
            },
    {
        Notification::from_fields(read_notify(&value))
    }

    /// The notification for what was read from a message: the summary is
    /// its title and the body its content. A message that could not be read
    /// is malformed.
    pub fn from_fields(fields: Result<(String, String), TypeMismatchError>) -> (parsed: Result<
        Notification,
        SourceError,
    >)
        ensures
            match fields {
                Ok((title, content)) => parsed.is_ok() && parsed.unwrap().title == title
                    && parsed.unwrap().content == content,
                Err(_) => parsed == Err::<Notification, SourceError>(SourceError::Malformed),
            },
    {
        match fields {
            Ok((title, content)) => Ok(Notification { title, content }),
            Err(_) => Err(SourceError::Malformed),
        }
    }

    /// A notification with the given title and body.
    pub fn new(title: String, content: String) -> (n: Notification)
        ensures
            n.title == title,
            n.content == content,
    {
        Notification { title, content }
    }

    /// Draws the title in the large style at (10, 10) and then the body in
    /// the small style at (10, 20), over what `target` holds.
    ///
    /// A line that is too long to be drawn fails the call. The title is
    /// drawn first: where only the body is too long, the title stays on the
    /// frame.
    pub fn draw(&self, target: &mut FrameBuffer) -> (done: Result<(), RenderFailure>)
        ensures
            done.is_ok() <==> drawable(self.title@) && drawable(self.content@),
            done.is_err() ==> done == Err::<(), RenderFailure>(RenderFailure::TextTooLong),
            !drawable(self.title@) ==> final(target)@ == old(target)@,
            drawable(self.title@) && !drawable(self.content@) ==> final(target)@ == with_title(
                old(target)@,
                self.title@,
            ),
            drawable(self.title@) && drawable(self.content@) ==> final(target)@ == with_content(
                with_title(old(target)@, self.title@),
                self.content@,
            ),
    {
        match draw_text(target, self.title.as_str(), Font::Large, NOTIFICATION_X, TITLE_Y) {
            Ok(()) => {},
            Err(e) => {
                return Err(e);
            },
        }
        draw_text(target, self.content.as_str(), Font::Small, NOTIFICATION_X, CONTENT_Y)
    }
}

} // verus!
