use vstd::prelude::*;

verus! {

/// A lower-case hexadecimal digit, as found in a textual UUID.
pub open spec fn is_lower_hex_digit(c: char) -> bool {
    ('0' <= c && c <= '9') || ('a' <= c && c <= 'f')
}

/// Positions of the four hyphens in the 36-character hyphenated UUID form.
pub open spec fn is_hyphen_position(i: int) -> bool {
    i == 8 || i == 13 || i == 18 || i == 23
}

/// The hyphenated, lower-case text of a random (version 4, RFC 4122 variant) UUID.
pub open spec fn is_uuid_v4_text(s: Seq<char>) -> bool {
    &&& s.len() == 36
    &&& forall|i: int|
        0 <= i < 36 ==> if is_hyphen_position(i) {
            s[i] == '-'
        } else {
            is_lower_hex_digit(#[trigger] s[i])
        }
    &&& s[14] == '4'
    &&& (s[19] == '8' || s[19] == '9' || s[19] == 'a' || s[19] == 'b')
}

/// Relies on uuid's `Uuid::new_v4` and its `Display` impl: the text of a fresh
/// random UUID, in the lower-case hyphenated form. The bits are random, so
/// nothing is stated of them beyond the fixed version and variant digits.
#[verifier::external_body]
fn fresh_identifier() -> (r: String)
    ensures
        is_uuid_v4_text(r@),
{
    uuid::Uuid::new_v4().to_string()
}


/// The view of an optional text field.
pub open spec fn opt_text(o: Option<String>) -> Option<Seq<char>> {
    match o {
        Some(s) => Some(s@),
        None => None,
    }
}

/// A copy of an optional text field.
pub(crate) fn copy_text(o: &Option<String>) -> (r: Option<String>)
    ensures
        opt_text(r) == opt_text(*o),
{
    match o {
        Some(s) => Some(s.clone()),
        None => None,
    }
}

/// What a notification is: its fields as mathematical values.
pub struct NotificationView {
    pub identifier: Seq<char>,
    pub title: Option<Seq<char>>,
    pub subtitle: Option<Seq<char>>,
    pub image: Option<Seq<char>>,
    pub sound: Option<Seq<char>>,
    /// Seconds since the Unix epoch.
    pub delivery_date: Option<u64>,
    pub reply: bool,
}

/// How the notification center is asked to show a notification.
#[derive(Clone, Copy, Debug, PartialEq, Eq, Structural)]
pub enum DeliveryMode {
    /// Delivered at once: it shows in the listing of delivered notifications.
    Immediate,
    /// Scheduled for the given time, in seconds since the Unix epoch.
    Scheduled(u64),
}

/// A desktop notification, built by chained setters and sent as a whole.
#[derive(Debug, Clone)]
pub struct Notification {
    /// The unique identifier for the notification.
    identifier: String,
    /// The text that provides the notification's primary description.
    title: Option<String>,
    /// The text that provides the notification's secondary description.
    subtitle: Option<String>,
    /// Locator of an image shown with the notification.
    image: Option<String>,
    /// Name of the sound that plays when the system delivers the notification.
    sound: Option<String>,
    /// Delivery time, in seconds since the Unix epoch.
    delivery_date: Option<u64>,
    /// Whether the notification offers a reply field.
    reply: bool,
}

impl View for Notification {
    type V = NotificationView;

    closed spec fn view(&self) -> NotificationView {
        NotificationView {
            identifier: self.identifier@,
            title: opt_text(self.title),
            subtitle: opt_text(self.subtitle),
            image: opt_text(self.image),
            sound: opt_text(self.sound),
            delivery_date: self.delivery_date,
            reply: self.reply,
        }
    }
}

impl Notification {
    /// A fresh notification: a new random identifier, every other field unset.
    pub fn new() -> (r: Self)
        ensures
            is_uuid_v4_text(r@.identifier),
            r@.title is None,
            r@.subtitle is None,
            r@.image is None,
            r@.sound is None,
            r@.delivery_date is None,
            !r@.reply,
    {
        Notification {
            identifier: fresh_identifier(),
            title: None,
            subtitle: None,
            image: None,
            sound: None,
            delivery_date: None,
            reply: false,
        }
    }

    /// A notification read back from the notification center. The platform
    /// does not report the image or the delivery time of a delivered
    /// notification, so both are absent here whatever was sent.
    pub fn from_delivered(
        identifier: String,
        title: Option<String>,
        subtitle: Option<String>,
        sound: Option<String>,
        reply: bool,
    ) -> (r: Self)
        ensures
            r@ == (NotificationView {
                identifier: identifier@,
                title: opt_text(title),
                subtitle: opt_text(subtitle),
                image: None,
                sound: opt_text(sound),
                delivery_date: None,
                reply,
            }),
    {
        Notification { identifier, title, subtitle, image: None, sound, delivery_date: None, reply }
    }

    /// Sets the title.
    pub fn title(self, title: &str) -> (r: Self)
        ensures
            r@ == (NotificationView { title: Some(title@), ..self@ }),
    {
        let mut n = self;
        n.title = Some(title.to_string());
        n
    }

    /// Sets the subtitle.
    pub fn subtitle(self, subtitle: &str) -> (r: Self)
        ensures
            r@ == (NotificationView { subtitle: Some(subtitle@), ..self@ }),
    {
        let mut n = self;
        n.subtitle = Some(subtitle.to_string());
        n
    }

    /// Sets the locator of the image.
    pub fn image(self, image: &str) -> (r: Self)
        ensures
            r@ == (NotificationView { image: Some(image@), ..self@ }),
    {
        let mut n = self;
        n.image = Some(image.to_string());
        n
    }

    /// Sets the name of the sound.
    pub fn sound(self, sound: &str) -> (r: Self)
        ensures
            r@ == (NotificationView { sound: Some(sound@), ..self@ }),
    {
        let mut n = self;
        n.sound = Some(sound.to_string());
        n
    }

    /// Sets whether the notification offers a reply field.
    pub fn reply(self, reply: bool) -> (r: Self)
        ensures
            r@ == (NotificationView { reply, ..self@ }),
    {
        let mut n = self;
        n.reply = reply;
        n
    }

    /// Sets the delivery time, in seconds since the Unix epoch.
    pub fn delivery_date(self, delivery_date: u64) -> (r: Self)
        ensures
            r@ == (NotificationView { delivery_date: Some(delivery_date), ..self@ }),
    {
        let mut n = self;
        n.delivery_date = Some(delivery_date);
        n
    }
}


impl Notification {
    /// The identifier under which the notification is sent and later found.
    pub fn identifier(&self) -> (r: &str)
        ensures
            r@ == self@.identifier,
    {
        self.identifier.as_str()
    }

    /// The title, if set.
    pub fn title_text(&self) -> (r: Option<&str>)
        ensures
            opt_str(r) == self@.title,
    {
        borrow_text(&self.title)
    }

    /// The subtitle, if set.
    pub fn subtitle_text(&self) -> (r: Option<&str>)
        ensures
            opt_str(r) == self@.subtitle,
    {
        borrow_text(&self.subtitle)
    }

    /// The image locator, if set.
    pub fn image_locator(&self) -> (r: Option<&str>)
        ensures
            opt_str(r) == self@.image,
    {
        borrow_text(&self.image)
    }

    /// The sound name, if set.
    pub fn sound_name(&self) -> (r: Option<&str>)
        ensures
            opt_str(r) == self@.sound,
    {
        borrow_text(&self.sound)
    }

    /// Whether the notification offers a reply field.
    pub fn has_reply(&self) -> (r: bool)
        ensures
            r == self@.reply,
    {
        self.reply
    }

    /// The delivery time in seconds since the Unix epoch, if set.
    pub fn delivery_time(&self) -> (r: Option<u64>)
        ensures
            r == self@.delivery_date,
    {
        self.delivery_date
    }

    /// How sending asks the center to show the notification: scheduled when a
    /// delivery time is set, delivered at once otherwise.
    pub fn delivery_mode(&self) -> (r: DeliveryMode)
        ensures
            r == delivery_mode_of(self@),
    {
        match self.delivery_date {
            Some(t) => DeliveryMode::Scheduled(t),
            None => DeliveryMode::Immediate,
        }
    }
}

/// Sending with no delivery time delivers at once; with one, schedules for it.
pub open spec fn delivery_mode_of(n: NotificationView) -> DeliveryMode {
    match n.delivery_date {
        Some(t) => DeliveryMode::Scheduled(t),
        None => DeliveryMode::Immediate,
    }
}

/// The view of an optional borrowed text.
pub open spec fn opt_str(o: Option<&str>) -> Option<Seq<char>> {
    match o {
        Some(s) => Some(s@),
        None => None,
    }
}

fn borrow_text(o: &Option<String>) -> (r: Option<&str>)
    ensures
        opt_str(r) == opt_text(*o),
{
    match o {
        Some(s) => Some(s.as_str()),
        None => None,
    }
}

/// Why sending a notification failed.
#[derive(Debug, Clone, PartialEq, Eq)]
pub enum NotificationError {
    /// The platform's notification framework rejected the request.
    NSError { code: i64, domain: String, message: String },
    /// Not supported by the running OS version.
    NotSupported,
}

} // verus!
