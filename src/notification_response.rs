use vstd::prelude::*;

use crate::notification::opt_text;

verus! {

/// How the user activated a delivered notification, as the platform reports it.
#[derive(Clone, Copy, Debug, PartialEq, Eq, Structural)]
pub enum ActivationType {
    /// No interaction.
    NoInteraction,
    /// The body of the notification was clicked.
    ContentsClicked,
    /// The action button was clicked.
    ActionButtonClicked,
    /// Text was submitted in the reply field.
    Replied,
    /// One of the additional actions was chosen; this binding offers none.
    AdditionalActionClicked,
}

/// Response from the Notification
#[derive(Debug, Clone, PartialEq, Eq)]
pub enum NotificationResponse {
    /// No interaction has occurred
    NoInteraction,
    /// User clicked on an action button with the given name
    ActionButton(String),
    /// User clicked on the close button with the given name
    CloseButton(String),
    /// User clicked the notification directly
    Click,
    /// User submitted text to the input text field
    Reply(String),
}

/// The activations that this binding knows how to decode: every kind but an
/// additional action, and a reply only together with its text.
pub open spec fn decodable(activation: ActivationType, reply_text: Option<Seq<char>>) -> bool {
    &&& activation != ActivationType::AdditionalActionClicked
    &&& activation == ActivationType::Replied ==> reply_text is Some
}

/// The response that an activation stands for.
pub open spec fn decodes_to(
    r: NotificationResponse,
    activation: ActivationType,
    action_label: Seq<char>,
    reply_text: Option<Seq<char>>,
) -> bool {
    match activation {
        ActivationType::NoInteraction => r is NoInteraction,
        ActivationType::ContentsClicked => r is Click,
        ActivationType::ActionButtonClicked => r matches NotificationResponse::ActionButton(
            l,
        ) && l@ == action_label,
        ActivationType::Replied => r matches NotificationResponse::Reply(t) && reply_text == Some(
            t@,
        ),
        ActivationType::AdditionalActionClicked => false,
    }
}

impl NotificationResponse {
    /// Decodes an activation: the kind of interaction, the title of the action
    /// button, and the text that was replied, if any.
    pub fn from_activation(
        activation: ActivationType,
        action_label: String,
        reply_text: Option<String>,
    ) -> (r: Self)
        requires
            decodable(activation, opt_text(reply_text)),
        ensures
            decodes_to(r, activation, action_label@, opt_text(reply_text)),
    {
        match activation {
            ActivationType::NoInteraction => NotificationResponse::NoInteraction,
            ActivationType::ContentsClicked => NotificationResponse::Click,
            ActivationType::ActionButtonClicked => NotificationResponse::ActionButton(action_label),
            ActivationType::Replied => match reply_text {
                Some(t) => NotificationResponse::Reply(t),
                None => NotificationResponse::NoInteraction,
            },
            ActivationType::AdditionalActionClicked => NotificationResponse::NoInteraction,
        }
    }
}

} // verus!
