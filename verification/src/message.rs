//! What the service sends to its subscribers.

use vstd::prelude::*;

verus! {

/// The format that a subscriber sets its decoder up with.
#[derive(Clone, Copy, Debug, PartialEq, Eq, Structural)]
pub struct WireFormat {
    pub sample_rate: u32,
    pub channels: u32,
}

/// A control message.
#[derive(Clone, Copy, Debug, PartialEq, Eq, Structural)]
pub enum Misc {
    AudioFormat(WireFormat),
}

/// A message to the subscribers: a control message, or the encoded bytes of one
/// audio frame.
#[derive(Debug, PartialEq, Eq)]
pub enum Message {
    Misc(Misc),
    AudioFrame(Vec<u8>),
}

/// A format, as a control message.
pub open spec fn format_misc(sample_rate: u32, channels: u16) -> Misc {
    Misc::AudioFormat(WireFormat { sample_rate, channels: channels as u32 })
}

/// The message that announces a format.
pub open spec fn format_msg(sample_rate: u32, channels: u16) -> Message {
    Message::Misc(format_misc(sample_rate, channels))
}

/// Builds the control message that announces a format.
pub fn create_format_misc(sample_rate: u32, channels: u16) -> (misc: Misc)
    ensures
        misc == format_misc(sample_rate, channels),
{
    Misc::AudioFormat(WireFormat { sample_rate, channels: channels as u32 })
}

/// Builds the message that announces a format.
pub fn create_format_msg(sample_rate: u32, channels: u16) -> (msg: Message)
    ensures
        msg == format_msg(sample_rate, channels),
{
    Message::Misc(create_format_misc(sample_rate, channels))
}

/// What is sent for the outcome of one encoder call: the encoded bytes as a
/// frame, and nothing where the encoder failed.
pub fn encoded_frame_msg<E>(encoded: Result<Vec<u8>, E>) -> (msg: Option<Message>)
    ensures
        msg == (match encoded {
            Ok(data) => Some(Message::AudioFrame(data)),
            Err(_) => None::<Message>,
        }),
{
    match encoded {
        Ok(data) => Some(Message::AudioFrame(data)),
        Err(_) => None,
    }
}

/// An announcement carries the rate and the number of channels that it is given.
pub proof fn lemma_announcement_carries_format(sample_rate: u32, channels: u16)
    ensures
        format_misc(sample_rate, channels) matches Misc::AudioFormat(format)
            && format.sample_rate == sample_rate && format.channels as int == channels as int,
        format_msg(sample_rate, channels) matches Message::Misc(Misc::AudioFormat(format))
            && format.sample_rate == sample_rate && format.channels as int == channels as int,
{
}

/// Formats that differ are announced differently.
pub proof fn lemma_announcement_is_injective(rate: u32, channels: u16, rate2: u32, channels2: u16)
    requires
        format_misc(rate, channels) == format_misc(rate2, channels2),
    ensures
        rate == rate2,
        channels == channels2,
{
    lemma_announcement_carries_format(rate, channels);
    lemma_announcement_carries_format(rate2, channels2);
}

} // verus!
