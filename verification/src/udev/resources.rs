//! What a device reports of its display hardware, and the pairings of
//! connector and CRTC that could carry an output.

use vstd::prelude::*;

verus! {

/// Whether a display is attached to a connector.
#[derive(Clone, Copy, Debug, PartialEq, Eq)]
pub enum ConnectorState {
    Connected,
    Disconnected,
    Unknown,
}

/// A physical output port, as the device reported it.
#[derive(Debug, PartialEq, Eq)]
pub struct Connector {
    pub handle: u32,
    pub state: ConnectorState,
    /// The encoders that can drive this connector, in the device's order. An
    /// absent slot is `None`.
    pub encoders: Vec<Option<u32>>,
}

/// A block that turns pixel data into a signal, as the device reported it.
#[derive(Clone, Copy, Debug, PartialEq, Eq)]
pub struct Encoder {
    pub handle: u32,
    /// Bit `i` is set where this encoder can drive the `i`-th CRTC of the
    /// device.
    pub possible_crtcs: u32,
}

/// The modesetting resources of one device. Nothing here is kept between
/// scans: the embedding program reads it afresh from the device each time.
#[derive(Debug, PartialEq, Eq)]
pub struct DrmResources {
    pub connectors: Vec<Connector>,
    /// The encoders whose description could be read.
    pub encoders: Vec<Encoder>,
    pub crtcs: Vec<u32>,
}

/// A connector, an encoder that drives it, and a CRTC that the encoder can
/// drive: one way to put an output on the connector.
#[derive(Clone, Copy, Debug, PartialEq, Eq)]
pub struct Candidate {
    pub connector: u32,
    pub encoder: u32,
    pub crtc: u32,
}

/// Number of CRTCs that an encoder's mask can speak of.
pub const MASK_BITS: usize = 32;

/// Whether `mask` names the CRTC at `index`.
pub open spec fn drives(mask: u32, index: int) -> bool {
    0 <= index < MASK_BITS && (mask >> (index as u32)) & 1u32 == 1u32
}

/// The candidates of one encoder on one connector among the first `count`
/// CRTCs, in the order of the CRTCs.
pub open spec fn encoder_candidates(
    connector: u32,
    encoder: Encoder,
    crtcs: Seq<u32>,
    count: nat,
) -> Seq<Candidate>
    decreases count,
{
    if count == 0 {
        Seq::empty()
    } else {
        let before = encoder_candidates(connector, encoder, crtcs, (count - 1) as nat);
        if drives(encoder.possible_crtcs, count - 1) {
            before.push(
                Candidate { connector, encoder: encoder.handle, crtc: crtcs[count - 1] },
            )
        } else {
            before
        }
    }
}

/// The first of the first `count` encoders with this handle.
pub open spec fn find_encoder(encoders: Seq<Encoder>, handle: u32, count: nat) -> Option<Encoder>
    decreases count,
{
    if count == 0 {
        None
    } else {
        match find_encoder(encoders, handle, (count - 1) as nat) {
            Some(encoder) => Some(encoder),
            None => if encoders[count - 1].handle == handle {
                Some(encoders[count - 1])
            } else {
                None
            },
        }
    }
}

impl DrmResources {
    /// The candidates of one encoder slot of a connector. An absent slot, and
    /// an encoder whose description could not be read, have none.
    pub open spec fn slot_candidates(self, connector: u32, slot: Option<u32>) -> Seq<Candidate> {
        match slot {
            Some(handle) => match find_encoder(self.encoders@, handle, self.encoders@.len()) {
                Some(encoder) => encoder_candidates(
                    connector,
                    encoder,
                    self.crtcs@,
                    self.crtcs@.len(),
                ),
                None => Seq::empty(),
            },
            None => Seq::empty(),
        }
    }

    /// The candidates of a connector through its first `count` encoder slots,
    /// in the order of the slots.
    pub open spec fn connector_candidates(self, connector: Connector, count: nat) -> Seq<
        Candidate,
    >
        decreases count,
    {
        if count == 0 {
            Seq::empty()
        } else {
            self.connector_candidates(connector, (count - 1) as nat) + self.slot_candidates(
                connector.handle,
                connector.encoders@[count - 1],
            )
        }
    }

    /// The candidates of the first `count` connectors, in the order of the
    /// connectors. Only a connected connector has candidates.
    pub open spec fn candidates_of(self, count: nat) -> Seq<Candidate>
        decreases count,
    {
        if count == 0 {
            Seq::empty()
        } else {
            let connector = self.connectors@[count - 1];
            self.candidates_of((count - 1) as nat) + if connector.state is Connected {
                self.connector_candidates(connector, connector.encoders@.len())
            } else {
                Seq::empty()
            }
        }
    }

    /// Every candidate of the device, in the order in which a scan considers
    /// them: connector by connector, encoder by encoder, CRTC by CRTC.
    pub open spec fn candidates(self) -> Seq<Candidate> {
        self.candidates_of(self.connectors@.len())
    }

    /// Whether the device reports a connected connector with this handle.
    pub open spec fn is_connected(self, connector: u32) -> bool {
        exists|i: int|
            0 <= i < self.connectors@.len() && self.connectors@[i].handle == connector
                && self.connectors@[i].state is Connected
    }

    /// The description of the encoder with this handle, if it could be read.
    pub fn encoder(&self, handle: u32) -> (found: Option<Encoder>)
        ensures
            found == find_encoder(self.encoders@, handle, self.encoders@.len()),
    {
        let n = self.encoders.len();
        let mut i: usize = 0;
        while i < n
            invariant
                i <= n,
                n == self.encoders@.len(),
                find_encoder(self.encoders@, handle, i as nat) is None,
            decreases n - i,
        {
            if self.encoders[i].handle == handle {
                let encoder = self.encoders[i];
                proof {
                    lemma_find_encoder_is_first(self.encoders@, handle, i as int, n as nat);
                }
                return Some(encoder);
            }
            i += 1;
        }
        None
    }

    fn push_encoder_candidates(&self, out: &mut Vec<Candidate>, connector: u32, encoder: Encoder)
        ensures
            final(out)@ == old(out)@ + encoder_candidates(
                connector,
                encoder,
                self.crtcs@,
                self.crtcs@.len(),
            ),
    {
        let n = self.crtcs.len();
        let mut i: usize = 0;
        while i < n
            invariant
                i <= n,
                n == self.crtcs@.len(),
                out@ == old(out)@ + encoder_candidates(connector, encoder, self.crtcs@, i as nat),
            decreases n - i,
        {
            if has_crtc(encoder.possible_crtcs, i) {
                out.push(Candidate { connector, encoder: encoder.handle, crtc: self.crtcs[i] });
            }
            i += 1;
        }
    }

    fn push_connector_candidates(&self, out: &mut Vec<Candidate>, connector: &Connector)
        ensures
            final(out)@ == old(out)@ + self.connector_candidates(
                *connector,
                connector.encoders@.len(),
            ),
    {
        let n = connector.encoders.len();
        let mut i: usize = 0;
        while i < n
            invariant
                i <= n,
                n == connector.encoders@.len(),
                out@ == old(out)@ + self.connector_candidates(*connector, i as nat),
            decreases n - i,
        {
            if let Some(handle) = connector.encoders[i] {
                if let Some(encoder) = self.encoder(handle) {
                    self.push_encoder_candidates(out, connector.handle, encoder);
                }
            }
            i += 1;
        }
    }

    /// Lists every candidate of the device, in scan order.
    pub fn list_candidates(&self) -> (out: Vec<Candidate>)
        ensures
            out@ == self.candidates(),
    {
        let mut out: Vec<Candidate> = Vec::new();
        let n = self.connectors.len();
        let mut i: usize = 0;
        while i < n
            invariant
                i <= n,
                n == self.connectors@.len(),
                out@ == self.candidates_of(i as nat),
            decreases n - i,
        {
            let connector = &self.connectors[i];
            match connector.state {
                ConnectorState::Connected => {
                    self.push_connector_candidates(&mut out, connector);
                },
                _ => {},
            }
            i += 1;
        }
        out
    }

    /// Whether a connected connector with this handle is reported.
    pub fn has_connected(&self, connector: u32) -> (r: bool)
        ensures
            r == self.is_connected(connector),
    {
        let n = self.connectors.len();
        let mut i: usize = 0;
        while i < n
            invariant
                i <= n,
                n == self.connectors@.len(),
                forall|j: int|
                    0 <= j < i ==> !(self.connectors@[j].handle == connector
                        && self.connectors@[j].state is Connected),
            decreases n - i,
        {
            let c = &self.connectors[i];
            match c.state {
                ConnectorState::Connected => {
                    if c.handle == connector {
                        return true;
                    }
                },
                _ => {},
            }
            i += 1;
        }
        false
    }
}

/// Whether `mask` names the CRTC at `index`.
pub fn has_crtc(mask: u32, index: usize) -> (r: bool)
    ensures
        r == drives(mask, index as int),
{
    index < MASK_BITS && (mask >> (index as u32)) & 1u32 == 1u32
}

/// The search for an encoder stops at the first one with the handle.
proof fn lemma_find_encoder_is_first(encoders: Seq<Encoder>, handle: u32, first: int, count: nat)
    requires
        0 <= first < count <= encoders.len(),
        encoders[first].handle == handle,
        find_encoder(encoders, handle, first as nat) is None,
    ensures
        find_encoder(encoders, handle, count) == Some(encoders[first]),
    decreases count,
{
    if count > first + 1 {
        lemma_find_encoder_is_first(encoders, handle, first, (count - 1) as nat);
    }
}

/// A device on which no connector is connected has no candidate.
pub proof fn lemma_no_connection_no_candidate(resources: DrmResources, count: nat)
    requires
        count <= resources.connectors@.len(),
        forall|i: int|
            0 <= i < resources.connectors@.len() ==> !(resources.connectors@[i].state
                is Connected),
    ensures
        resources.candidates_of(count) == Seq::<Candidate>::empty(),
    decreases count,
{
    if count > 0 {
        lemma_no_connection_no_candidate(resources, (count - 1) as nat);
    }
}

/// Every candidate of an encoder is on the connector asked for, names that
/// encoder, and names a CRTC of the device that the encoder's mask includes.
pub proof fn lemma_encoder_candidates(
    connector: u32,
    encoder: Encoder,
    crtcs: Seq<u32>,
    count: nat,
    k: int,
)
    requires
        count <= crtcs.len(),
        0 <= k < encoder_candidates(connector, encoder, crtcs, count).len(),
    ensures
        ({
            let c = encoder_candidates(connector, encoder, crtcs, count)[k];
            &&& c.connector == connector
            &&& c.encoder == encoder.handle
            &&& exists|i: int|
                0 <= i < count && drives(encoder.possible_crtcs, i) && crtcs[i] == c.crtc
        }),
    decreases count,
{
    let before = encoder_candidates(connector, encoder, crtcs, (count - 1) as nat);
    if k < before.len() {
        lemma_encoder_candidates(connector, encoder, crtcs, (count - 1) as nat, k);
    }
}

} // verus!
