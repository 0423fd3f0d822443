//! The image rotator: a list of images and a position that moves on by one
//! with every wake.

use crate::events::EventBus;
use crate::events::EventType;
use crate::json::json_string;
use crate::json::json_string_text;
use crate::json::text_of;
use vstd::prelude::*;
use vstd::string::*;

verus! {

/// One image of the rotation.
#[derive(Debug, PartialEq, Eq)]
pub struct Image {
    pub url: String,
    pub title: String,
    pub subtitle: String,
}

/// An `Image` as a mathematical value.
pub struct ImageData {
    pub url: Seq<char>,
    pub title: Seq<char>,
    pub subtitle: Seq<char>,
}

impl View for Image {
    type V = ImageData;

    open spec fn view(&self) -> ImageData {
        ImageData { url: self.url@, title: self.title@, subtitle: self.subtitle@ }
    }
}

impl Clone for Image {
    fn clone(&self) -> (r: Image)
        ensures
            r@ == self@,
    {
        Image { url: self.url.clone(), title: self.title.clone(), subtitle: self.subtitle.clone() }
    }
}

/// The images of a list as mathematical values.
pub open spec fn image_list(images: Seq<Image>) -> Seq<ImageData> {
    images.map_values(|image: Image| image@)
}

/// The JSON object with the three fields of an image, in the order url,
/// title, subtitle and without white space, given the JSON literal of each.
pub open spec fn image_object(url: Seq<char>, title: Seq<char>, subtitle: Seq<char>) -> Seq<char> {
    "{\"url\":"@ + url + ",\"title\":"@ + title + ",\"subtitle\":"@ + subtitle + "}"@
}

/// The JSON object of an image; nothing where the serializer fails on one of
/// its fields.
pub open spec fn image_json(image: ImageData) -> Option<Seq<char>> {
    match (
        json_string_text(image.url),
        json_string_text(image.title),
        json_string_text(image.subtitle),
    ) {
        (Some(url), Some(title), Some(subtitle)) => Some(image_object(url, title, subtitle)),
        _ => None,
    }
}

/// What the subscriber with the given ordinal is sent of a list of images
/// when the rotation stands at `current`, before a failure of the serializer
/// is replaced: the empty string for an empty list, else the JSON object of
/// the image at `(current + ordinal * offset) mod length`.
pub open spec fn serialized_image(images: Seq<ImageData>, current: nat, offset: nat, ordinal: nat) -> Option<
    Seq<char>,
> {
    if images.len() == 0 {
        Some(Seq::empty())
    } else {
        image_json(images[image_position(current, offset, ordinal, images.len()) as int])
    }
}

/// The text that is sent for a serialized image: the text itself, or the
/// empty string where the serializer failed.
pub open spec fn text_or_empty(serialized: Option<Seq<char>>) -> Seq<char> {
    match serialized {
        Some(text) => text,
        None => Seq::empty(),
    }
}

/// The place in a list of `len` images that the subscriber with the given
/// ordinal is shown, when the rotation stands at `current`.
pub open spec fn image_position(current: nat, offset: nat, ordinal: nat, len: nat) -> nat
    recommends
        len > 0,
{
    (current + ordinal * offset) % len
}

/// The position that follows `current`; after the largest one the count
/// starts again at zero.
pub open spec fn next_index(current: usize) -> usize {
    if current == usize::MAX {
        0
    } else {
        (current + 1) as usize
    }
}

/// The position of a fresh rotator after `ticks` wakes.
pub open spec fn index_after(ticks: nat) -> usize
    decreases ticks,
{
    if ticks == 0 {
        0
    } else {
        next_index(index_after((ticks - 1) as nat))
    }
}

/// After `ticks` wakes of a fresh rotator over `len` images, the subscriber
/// with ordinal `ordinal` is shown the image at `(ticks + ordinal * offset)
/// mod len`, as long as the number of wakes fits the machine's word.
pub proof fn lemma_position_after_ticks(ticks: nat, offset: nat, ordinal: nat, len: nat)
    requires
        len > 0,
        ticks <= usize::MAX,
    ensures
        index_after(ticks) == ticks,
        image_position(index_after(ticks) as nat, offset, ordinal, len) == (ticks + ordinal
            * offset) % len,
    decreases ticks,
{
    if ticks > 0 {
        lemma_position_after_ticks((ticks - 1) as nat, offset, ordinal, len);
    }
}

/// Computes `image_position` without overflow.
pub fn position(current: usize, offset: usize, ordinal: usize, len: usize) -> (r: usize)
    requires
        len > 0,
    ensures
        r == image_position(current as nat, offset as nat, ordinal as nat, len as nat),
        r < len,
{
    assert(0 <= ordinal * offset <= 0xFFFF_FFFF_FFFF_FFFF * 0xFFFF_FFFF_FFFF_FFFF)
        by (nonlinear_arith)
        requires
            0 <= ordinal <= 0xFFFF_FFFF_FFFF_FFFF,
            0 <= offset <= 0xFFFF_FFFF_FFFF_FFFF,
    ;
    let product: u128 = (ordinal as u128) * (offset as u128);
    let sum: u128 = (current as u128) + product;
    let r: u128 = sum % (len as u128);
    r as usize
}

/// Writes the JSON object of an image from the JSON literals of its three
/// fields.
pub fn image_text(url: &str, title: &str, subtitle: &str) -> (r: String)
    ensures
        r@ == image_object(url@, title@, subtitle@),
{
    let mut out = String::from_str("{\"url\":");
    out.append(url);
    out.append(",\"title\":");
    out.append(title);
    out.append(",\"subtitle\":");
    out.append(subtitle);
    out.append("}");
    out
}

/// Serializes an image as JSON. `None` stands for a failure of the
/// serializer on one of the three fields, which does not happen.
pub fn image_to_json(image: &Image) -> (r: Option<String>)
    ensures
        r is Some,
        text_of(r) == image_json(image@),
{
    let url = match json_string(image.url.as_str()) {
        Some(t) => t,
        None => { return None; },
    };
    let title = match json_string(image.title.as_str()) {
        Some(t) => t,
        None => { return None; },
    };
    let subtitle = match json_string(image.subtitle.as_str()) {
        Some(t) => t,
        None => { return None; },
    };
    Some(image_text(url.as_str(), title.as_str(), subtitle.as_str()))
}

/// The payload for the subscriber with ordinal `index`: nothing for an empty
/// list, else the JSON object of the image at its position. `None` stands for
/// a failure of the serializer.
pub fn get_serialized_image(images: &Vec<Image>, current: usize, offset: usize, index: usize) -> (r:
    Option<String>)
    ensures
        r is Some,
        text_of(r) == serialized_image(
            image_list(images@),
            current as nat,
            offset as nat,
            index as nat,
        ),
{
    if images.len() == 0 {
        let empty = String::new();
        assert(empty@ =~= Seq::<char>::empty());
        return Some(empty);
    }
    let idx = position(current, offset, index, images.len());
    image_to_json(&images[idx])
}

/// The payload that is sent: the serialized image, or the empty string where
/// the serializer failed.
pub fn payload_or_empty(serialized: Option<String>) -> (payload: String)
    ensures
        payload@ == text_or_empty(text_of(serialized)),
{
    match serialized {
        Some(text) => text,
        None => String::new(),
    }
}

/// The image rotator.
pub struct Images {
    images: Vec<Image>,
    timeout: u64,
    offset: usize,
    current_index: usize,
}

impl Images {
    /// The images of the rotation.
    pub closed spec fn images(&self) -> Seq<ImageData> {
        image_list(self.images@)
    }

    /// Seconds between two wakes.
    pub closed spec fn timeout(&self) -> u64 {
        self.timeout
    }

    /// The distance in the list between the images of two neighbouring
    /// subscribers.
    pub closed spec fn offset(&self) -> usize {
        self.offset
    }

    /// The position at which the rotation stands.
    pub closed spec fn current_index(&self) -> usize {
        self.current_index
    }

    /// Creates a rotator without images that stands at position zero.
    pub fn new(timeout: u64, offset: usize) -> (r: Images)
        ensures
            r.images().len() == 0,
            r.timeout() == timeout,
            r.offset() == offset,
            r.current_index() == 0,
    {
        Images { images: Vec::new(), timeout, offset, current_index: 0 }
    }

    /// Replaces the whole list of images by the list read, and fails, with
    /// the old list kept, where none could be read.
    pub fn set_images(&mut self, images: Option<Vec<Image>>) -> (r: Result<(), ()>)
        ensures
            r is Ok <==> images is Some,
            final(self).images() == (match images {
                Some(list) => image_list(list@),
                None => old(self).images(),
            }),
            final(self).timeout() == old(self).timeout(),
            final(self).offset() == old(self).offset(),
            final(self).current_index() == old(self).current_index(),
    {
        match images {
            Some(list) => {
                self.images = list;
                Ok(())
            },
            None => Err(()),
        }
    }

    /// Replaces the offset.
    pub fn set_offset(&mut self, offset: usize)
        ensures
            final(self).offset() == offset,
            final(self).images() == old(self).images(),
            final(self).timeout() == old(self).timeout(),
            final(self).current_index() == old(self).current_index(),
    {
        self.offset = offset;
    }

    /// Replaces the time between two wakes.
    pub fn set_timeout(&mut self, seconds: u64)
        ensures
            final(self).timeout() == seconds,
            final(self).images() == old(self).images(),
            final(self).offset() == old(self).offset(),
            final(self).current_index() == old(self).current_index(),
    {
        self.timeout = seconds;
    }

    /// Seconds between two wakes.
    pub fn timeout_seconds(&self) -> (seconds: u64)
        ensures
            seconds == self.timeout(),
    {
        self.timeout
    }

    /// The position at which the rotation stands.
    pub fn position_now(&self) -> (current: usize)
        ensures
            current == self.current_index(),
    {
        self.current_index
    }

    /// What the subscriber with the given ordinal gets on the next event:
    /// the empty string for an empty list, else the JSON object of the image
    /// at `(current + ordinal * offset) mod length`, and the empty string
    /// where the serializer fails on that image.
    pub open spec fn payload_text(&self, ordinal: nat) -> Seq<char> {
        text_or_empty(
            serialized_image(
                self.images(),
                self.current_index() as nat,
                self.offset() as nat,
                ordinal,
            ),
        )
    }

    /// The payload of the next event for the subscriber with the given
    /// ordinal.
    pub fn payload_for(&self, ordinal: usize) -> (payload: String)
        ensures
            payload@ == self.payload_text(ordinal as nat),
    {
        payload_or_empty(get_serialized_image(&self.images, self.current_index, self.offset, ordinal))
    }

    /// Performs one wake: publishes an image change in which every
    /// subscriber is sent the payload made for its ordinal, then moves the
    /// position on by one. What the bus answers is returned and changes
    /// nothing.
    pub fn run(&mut self, bus: &mut EventBus) -> (r: Result<(), ()>)
        ensures
            final(self).current_index() == next_index(old(self).current_index()),
            final(self).images() == old(self).images(),
            final(self).offset() == old(self).offset(),
            final(self).timeout() == old(self).timeout(),
            final(bus).after_publish(*old(bus), EventType::ImageChange),
            forall|i: int|
                0 <= i < final(bus).last_payloads().len() ==> old(self).payload_text(i as nat)
                    == (#[trigger] final(bus).last_payloads()[i])@,
            final(bus).subscribers(EventType::ImageChange).len() == 0 ==> r is Err,
    {
        let snapshot: &Images = &*self;
        let payload = |ordinal: usize| -> (s: String)
            ensures
                s@ == snapshot.payload_text(ordinal as nat),
            { snapshot.payload_for(ordinal) };
        let r = bus.publish(EventType::ImageChange, payload);
        self.current_index = if self.current_index == usize::MAX {
            0
        } else {
            self.current_index + 1
        };
        r
    }
}

} // verus!
