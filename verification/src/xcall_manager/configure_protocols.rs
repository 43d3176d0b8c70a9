//! The governance message that replaces the protocol set.

use vstd::prelude::*;
use crate::rlp_wire::{
    fields_wire, holds_field, is_list_spec, is_record, item_count_of, lemma_field_fits,
    read_of, record_wire, rlp_item_count, rlp_string_at, rlp_string_list_at,
    stream_append_str, stream_append_string_list, stream_items, stream_new_list, stream_out,
    string_at_of, string_list_at_of, text_field, text_list_field, text_read, texts_read, Field,
};
use crate::views::{texts, view_opt};
use crate::wire_len::{field_lens, fitting, record_len, text_len, text_list_len, MAX_WIRE_LEN};

verus! {

/// The tag of the message.
pub const CONFIGURE_PROTOCOLS: &'static str = "ConfigureProtocols";

/// Replaces the protocol set: `sources` attest inbound messages, outbound
/// messages go through `destinations`.
#[derive(Debug, Clone)]
pub struct ConfigureProtocols {
    pub sources: Vec<String>,
    pub destinations: Vec<String>,
}

/// What a `ConfigureProtocols` says.
pub struct ConfigureProtocolsView {
    pub sources: Seq<Seq<char>>,
    pub destinations: Seq<Seq<char>>,
}

impl View for ConfigureProtocols {
    type V = ConfigureProtocolsView;

    open spec fn view(&self) -> ConfigureProtocolsView {
        ConfigureProtocolsView {
            sources: texts(self.sources@),
            destinations: texts(self.destinations@),
        }
    }
}

/// The texts of an optional list of strings.
pub open spec fn texts_opt(names: Option<Vec<String>>) -> Option<Seq<Seq<char>>> {
    match names {
        Some(list) => Some(texts(list@)),
        None => None,
    }
}

impl ConfigureProtocolsView {
    /// The record of the message: the tag, then the two lists.
    pub open spec fn fields(self) -> Seq<Field> {
        seq![
            text_field(CONFIGURE_PROTOCOLS@),
            text_list_field(self.sources),
            text_list_field(self.destinations),
        ]
    }

    /// The bytes of the message.
    pub open spec fn wire(self) -> Seq<u8> {
        record_wire(self.fields())
    }

    /// The message that the parts of a list make up: three items, the first of
    /// them the tag.
    pub open spec fn of_parts(
        listed: bool,
        count: Option<usize>,
        tag: Option<Seq<char>>,
        sources: Option<Seq<Seq<char>>>,
        destinations: Option<Seq<Seq<char>>>,
    ) -> Option<ConfigureProtocolsView> {
        if listed && count == Some(3usize) && tag == Some(CONFIGURE_PROTOCOLS@) && sources is Some
            && destinations is Some {
            Some(ConfigureProtocolsView { sources: sources->0, destinations: destinations->0 })
        } else {
            None
        }
    }

    /// The message that `data` holds, if it holds one.
    pub open spec fn of_wire(data: Seq<u8>) -> Option<ConfigureProtocolsView> {
        Self::of_parts(
            is_list_spec(data),
            item_count_of(data),
            string_at_of(data, 0),
            string_list_at_of(data, 1),
            string_list_at_of(data, 2),
        )
    }
}

impl ConfigureProtocols {
    pub fn create(sources: Vec<String>, destinations: Vec<String>) -> (r: Self)
        ensures
            r.sources == sources,
            r.destinations == destinations,
    {
        Self { sources, destinations }
    }

    /// The message that names no protocol.
    pub fn null() -> (r: Self)
        ensures
            r.sources@.len() == 0,
            r.destinations@.len() == 0,
    {
        Self { sources: Vec::new(), destinations: Vec::new() }
    }

    /// Encodes the message. The encoding must fit the 32-bit lengths of the writer.
    pub fn encode(&self) -> (out: Vec<u8>)
        requires
            self@.wire().len() <= u32::MAX,
        ensures
            out@ == self@.wire(),
    {
        let ghost fields = self@.fields();
        proof {
            lemma_field_fits(fields, 0);
            lemma_field_fits(fields, 1);
            lemma_field_fits(fields, 2);
        }
        let mut s = stream_new_list(3);
        stream_append_str(&mut s, CONFIGURE_PROTOCOLS);
        stream_append_string_list(&mut s, &self.sources);
        stream_append_string_list(&mut s, &self.destinations);
        assert(stream_items(s) =~= fields_wire(fields));
        stream_out(s)
    }

    /// The length of the encoding, where it fits the 32-bit lengths of the writer.
    pub fn wire_len(&self) -> (len: Option<usize>)
        ensures
            len == fitting(self@.wire().len()),
    {
        let lens: Vec<Option<usize>> = vec![
            text_len(CONFIGURE_PROTOCOLS),
            text_list_len(&self.sources),
            text_list_len(&self.destinations),
        ];
        assert(field_lens(self@.fields()) =~= lens@);
        record_len(&lens)
    }

    /// Encodes the message, unless its encoding is too long for the writer.
    pub fn try_encode(&self) -> (out: Option<Vec<u8>>)
        ensures
            view_opt(out) == (if self@.wire().len() <= MAX_WIRE_LEN {
                Some(self@.wire())
            } else {
                None
            }),
    {
        match self.wire_len() {
            Some(_) => Some(self.encode()),
            None => None,
        }
    }

    /// Makes the message from what was read of a list.
    pub fn from_parts(
        listed: bool,
        count: Option<usize>,
        tag: Option<String>,
        sources: Option<Vec<String>>,
        destinations: Option<Vec<String>>,
    ) -> (r: Option<Self>)
        ensures
            view_opt(r) == ConfigureProtocolsView::of_parts(
                listed,
                count,
                view_opt(tag),
                texts_opt(sources),
                texts_opt(destinations),
            ),
    {
        if !listed {
            return None;
        }
        match (count, tag, sources, destinations) {
            (Some(count), Some(tag), Some(sources), Some(destinations)) => {
                if count != 3 || tag != CONFIGURE_PROTOCOLS.to_owned() {
                    return None;
                }
                Some(ConfigureProtocols { sources, destinations })
            },
            _ => None,
        }
    }

    /// Decodes the message. What `encode` wrote is read back as it was.
    pub fn decode(data: &[u8]) -> (r: Option<Self>)
        ensures
            view_opt(r) == ConfigureProtocolsView::of_wire(data@),
            forall|sent: ConfigureProtocolsView| #[trigger]
                sent.wire() == data@ ==> view_opt(r) == Some(sent),
    {
        let listed = is_record(data);
        let count = rlp_item_count(data);
        let tag = rlp_string_at(data, 0);
        let sources = rlp_string_list_at(data, 1);
        let destinations = rlp_string_list_at(data, 2);
        proof {
            assert forall|sent: ConfigureProtocolsView| #[trigger]
                sent.wire() == data@ implies listed && read_of(count) == Some(3usize) && text_read(
                tag,
            ) == Some(CONFIGURE_PROTOCOLS@) && texts_read(sources) == Some(sent.sources)
                && texts_read(destinations) == Some(sent.destinations) by {
                let fields = sent.fields();
                assert(holds_field(data@, fields, 0, text_field(CONFIGURE_PROTOCOLS@)));
                assert(holds_field(data@, fields, 1, text_list_field(sent.sources)));
                assert(holds_field(data@, fields, 2, text_list_field(sent.destinations)));
            }
        }
        Self::from_parts(listed, count.ok(), tag.ok(), sources.ok(), destinations.ok())
    }
}

} // verus!
