//! The processing plugins: their identities, the series they need, and the
//! check of the inputs handed to them.
use vstd::prelude::*;
use crate::processor::ValueKind;

verus! {

/// The views of a list of strings.
pub open spec fn views(v: Seq<String>) -> Seq<Seq<char>> {
    v.map_values(|s: String| s@)
}

fn strings_of(names: &[&str]) -> (out: Vec<String>)
    ensures
        out@.len() == names@.len(),
        forall|i: int| 0 <= i < names@.len() ==> #[trigger] out@[i]@ == names@[i]@,
{
    let mut out: Vec<String> = Vec::new();
    let mut i: usize = 0;
    while i < names.len()
        invariant
            i <= names@.len(),
            out@.len() == i,
            forall|k: int| 0 <= k < i ==> #[trigger] out@[k]@ == names@[k]@,
        decreases names@.len() - i,
    {
        out.push(String::from_str(names[i]));
        i = i + 1;
    }
    out
}

/// Outcome of handing `provided` input series to a plugin whose inputs carry
/// the given "missing" messages in order: the message of the first input that
/// was not provided, if any.
pub open spec fn spec_input_check(missing: Seq<Seq<char>>, provided: nat) -> Result<(), Seq<char>> {
    if provided < missing.len() {
        Err(missing[provided as int])
    } else {
        Ok(())
    }
}

fn input_check(missing: &[&str], provided: usize) -> (r: Result<(), String>)
    ensures
        match (r, spec_input_check(missing@.map_values(|s: &str| s@), provided as nat)) {
            (Ok(()), Ok(())) => true,
            (Err(m), Err(e)) => m@ == e,
            _ => false,
        },
{
    if provided < missing.len() {
        Err(String::from_str(missing[provided]))
    } else {
        Ok(())
    }
}

/// The plugins offered for processing a flow.
#[derive(Clone, Copy, PartialEq, Eq, Debug, Structural)]
pub enum PluginKind {
    Dummy,
    UpperWindow,
    BytesInFlight,
    UsableSendWindow,
    DuplicateAck,
    Retransmission,
    SenderLimitation,
    LossEpisode,
}

/// The label under which each plugin is offered.
pub open spec fn spec_plugin_label(kind: PluginKind) -> Seq<char> {
    match kind {
        PluginKind::Dummy => "Dummy Plugin"@,
        PluginKind::UpperWindow => "Upper TCP Window"@,
        PluginKind::BytesInFlight => "Bytes In Flight"@,
        PluginKind::UsableSendWindow => "Usable Send Window"@,
        PluginKind::DuplicateAck => "Duplicate ACK Detector"@,
        PluginKind::Retransmission => "Retransmission Detector"@,
        PluginKind::SenderLimitation => "Sender Limitation"@,
        PluginKind::LossEpisode => "Loss Episode Detector"@,
    }
}

impl PluginKind {
    /// Every plugin, in the order in which they are offered.
    pub fn all() -> (r: Vec<PluginKind>)
        ensures
            r@ == seq![
                PluginKind::Dummy,
                PluginKind::UpperWindow,
                PluginKind::BytesInFlight,
                PluginKind::UsableSendWindow,
                PluginKind::DuplicateAck,
                PluginKind::Retransmission,
                PluginKind::SenderLimitation,
                PluginKind::LossEpisode,
            ],
    {
        let mut r: Vec<PluginKind> = Vec::new();
        r.push(PluginKind::Dummy);
        r.push(PluginKind::UpperWindow);
        r.push(PluginKind::BytesInFlight);
        r.push(PluginKind::UsableSendWindow);
        r.push(PluginKind::DuplicateAck);
        r.push(PluginKind::Retransmission);
        r.push(PluginKind::SenderLimitation);
        r.push(PluginKind::LossEpisode);
        r
    }

    /// The label under which the plugin is offered.
    pub fn label(&self) -> (r: &'static str)
        ensures
            r@ == spec_plugin_label(*self),
    {
        match self {
            PluginKind::Dummy => "Dummy Plugin",
            PluginKind::UpperWindow => "Upper TCP Window",
            PluginKind::BytesInFlight => "Bytes In Flight",
            PluginKind::UsableSendWindow => "Usable Send Window",
            PluginKind::DuplicateAck => "Duplicate ACK Detector",
            PluginKind::Retransmission => "Retransmission Detector",
            PluginKind::SenderLimitation => "Sender Limitation",
            PluginKind::LossEpisode => "Loss Episode Detector",
        }
    }
}

/// Test plugin: a random series over the timestamps of its first input.
pub struct DummyPlugin {
    pub required: Vec<String>,
}

impl DummyPlugin {
    pub fn new() -> (r: DummyPlugin)
        ensures
            views(r.required@) == seq!["ack_num"@, "seq_num"@],
    {
        let r = DummyPlugin { required: strings_of(&["ack_num", "seq_num"]) };
        assert(views(r.required@) =~= seq!["ack_num"@, "seq_num"@]);
        r
    }

    pub fn name(&self) -> (r: &'static str)
        ensures
            r@ == "Dummy Plugin"@,
    {
        "Dummy Plugin"
    }

    pub fn description(&self) -> (r: &'static str)
        ensures
            r@
                == "Generates a random constant-line series for every timestamp from the first input series. Useful for testing the plugin system."@,
    {
        "Generates a random constant-line series for every timestamp from the first input series. Useful for testing the plugin system."
    }

    pub fn required_series(&self) -> (r: Vec<String>)
        ensures
            views(r@) == views(self.required@),
    {
        let r = self.required.clone();
        assert(views(r@) =~= views(self.required@));
        r
    }

    /// Fails, with the message the plugin reports, when no input series is provided.
    pub fn check_inputs(&self, provided: usize) -> (r: Result<(), String>)
        ensures
            r is Ok <==> provided >= 1,
            r matches Err(m) ==> m@ == "No input series provided"@,
    {
        input_check(&["No input series provided"], provided)
    }
}

/// UPPER_WND = SND_UNA + SND_WND.
pub struct UpperWindowPlugin {
    pub required: Vec<String>,
}

impl UpperWindowPlugin {
    pub fn new() -> (r: UpperWindowPlugin)
        ensures
            views(r.required@) == seq!["SND_UNA"@, "SND_WND"@],
    {
        let r = UpperWindowPlugin { required: strings_of(&["SND_UNA", "SND_WND"]) };
        assert(views(r.required@) =~= seq!["SND_UNA"@, "SND_WND"@]);
        r
    }

    pub fn name(&self) -> (r: &'static str)
        ensures
            r@ == "Upper TCP Window"@,
    {
        "Upper TCP Window"
    }

    pub fn description(&self) -> (r: &'static str)
        ensures
            r@
                == "Calculates the upper bound of the sliding TCP window: UPPER_WND = SND_UNA + SND_WND."@,
    {
        "Calculates the upper bound of the sliding TCP window: UPPER_WND = SND_UNA + SND_WND."
    }

    pub fn required_series(&self) -> (r: Vec<String>)
        ensures
            views(r@) == views(self.required@),
    {
        let r = self.required.clone();
        assert(views(r@) =~= views(self.required@));
        r
    }

    pub fn check_inputs(&self, provided: usize) -> (r: Result<(), String>)
        ensures
            r is Ok <==> provided >= 2,
            r matches Err(m) ==> m@ == (if provided == 0 {
                "Missing SND_UNA series"@
            } else {
                "Missing SND_WND series"@
            }),
    {
        input_check(&["Missing SND_UNA series", "Missing SND_WND series"], provided)
    }

    /// Checks the inputs by the kinds of their values: both series must be
    /// there, of the same kind, and that kind must be integer or float. On
    /// success, the shared kind.
    pub fn check_input_kinds(&self, kinds: &[ValueKind]) -> (r: Result<ValueKind, String>)
        ensures
            kinds@.len() == 0 ==> (r matches Err(m) && m@ == "Missing SND_UNA series"@),
            kinds@.len() == 1 ==> (r matches Err(m) && m@ == "Missing SND_WND series"@),
            kinds@.len() >= 2 && kinds@[0] != kinds@[1] ==> (r matches Err(m) && m@
                == "SND_UNA and SND_WND have mismatched types"@),
            kinds@.len() >= 2 && kinds@[0] == kinds@[1] && kinds@[0] != ValueKind::Int
                && kinds@[0] != ValueKind::Float ==> (r matches Err(m) && m@
                == "SND_UNA/SND_WND must be Int or Float"@),
            kinds@.len() >= 2 && kinds@[0] == kinds@[1] && (kinds@[0] == ValueKind::Int
                || kinds@[0] == ValueKind::Float) ==> r == Ok::<ValueKind, String>(kinds@[0]),
    {
        if kinds.len() == 0 {
            return Err(String::from_str("Missing SND_UNA series"));
        }
        if kinds.len() == 1 {
            return Err(String::from_str("Missing SND_WND series"));
        }
        if kinds[0] != kinds[1] {
            return Err(String::from_str("SND_UNA and SND_WND have mismatched types"));
        }
        match kinds[0] {
            ValueKind::Int | ValueKind::Float => Ok(kinds[0]),
            _ => Err(String::from_str("SND_UNA/SND_WND must be Int or Float")),
        }
    }
}

/// BYTES_IN_FLIGHT = SND_NXT - SND_UNA.
#[derive(Default)]
pub struct BytesInFlightPlugin;

impl BytesInFlightPlugin {
    pub fn name(&self) -> (r: &'static str)
        ensures
            r@ == "Bytes In Flight"@,
    {
        "Bytes In Flight"
    }

    pub fn description(&self) -> (r: &'static str)
        ensures
            r@
                == "Calculates BYTES_IN_FLIGHT = SND_NXT - SND_UNA, handling TCP sequence wraparound."@,
    {
        "Calculates BYTES_IN_FLIGHT = SND_NXT - SND_UNA, handling TCP sequence wraparound."
    }

    pub fn required_series(&self) -> (r: Vec<String>)
        ensures
            views(r@) == seq!["SND_NXT"@, "SND_UNA"@],
    {
        let r = strings_of(&["SND_NXT", "SND_UNA"]);
        assert(views(r@) =~= seq!["SND_NXT"@, "SND_UNA"@]);
        r
    }

    pub fn check_inputs(&self, provided: usize) -> (r: Result<(), String>)
        ensures
            r is Ok <==> provided >= 2,
            r matches Err(m) ==> m@ == (if provided == 0 {
                "Missing SND_NXT series"@
            } else {
                "Missing SND_UNA series"@
            }),
    {
        input_check(&["Missing SND_NXT series", "Missing SND_UNA series"], provided)
    }
}

/// USABLE_SND_WND = SND_UNA + SND_WND - SND_NXT.
#[derive(Default)]
pub struct UsableSendWindowPlugin;

impl UsableSendWindowPlugin {
    pub fn name(&self) -> (r: &'static str)
        ensures
            r@ == "Usable Send Window"@,
    {
        "Usable Send Window"
    }

    pub fn description(&self) -> (r: &'static str)
        ensures
            r@ == "Calculates USABLE_SND_WND = SND_UNA + SND_WND - SND_NXT."@,
    {
        "Calculates USABLE_SND_WND = SND_UNA + SND_WND - SND_NXT."
    }

    pub fn required_series(&self) -> (r: Vec<String>)
        ensures
            views(r@) == seq!["SND_UNA"@, "SND_WND"@, "SND_NXT"@],
    {
        let r = strings_of(&["SND_UNA", "SND_WND", "SND_NXT"]);
        assert(views(r@) =~= seq!["SND_UNA"@, "SND_WND"@, "SND_NXT"@]);
        r
    }

    pub fn check_inputs(&self, provided: usize) -> (r: Result<(), String>)
        ensures
            r is Ok <==> provided >= 3,
            r matches Err(m) ==> m@ == (if provided == 0 {
                "Missing SND_UNA series"@
            } else if provided == 1 {
                "Missing SND_WND series"@
            } else {
                "Missing SND_NXT series"@
            }),
    {
        input_check(
            &["Missing SND_UNA series", "Missing SND_WND series", "Missing SND_NXT series"],
            provided,
        )
    }
}

/// DUP_ACK and DUP_ACK_COUNT from ACK_NUM, SEQ_NUM and FLAGS.
#[derive(Default)]
pub struct DuplicateAckPlugin;

impl DuplicateAckPlugin {
    pub fn name(&self) -> (r: &'static str)
        ensures
            r@ == "Duplicate ACK Detector"@,
    {
        "Duplicate ACK Detector"
    }

    pub fn description(&self) -> (r: &'static str)
        ensures
            r@
                == "Marks repeated pure ACKs with the same ACK and SEQ number. Outputs DUP_ACK and DUP_ACK_COUNT."@,
    {
        "Marks repeated pure ACKs with the same ACK and SEQ number. Outputs DUP_ACK and DUP_ACK_COUNT."
    }

    pub fn required_series(&self) -> (r: Vec<String>)
        ensures
            views(r@) == seq!["ACK_NUM"@, "SEQ_NUM"@, "FLAGS"@],
    {
        let r = strings_of(&["ACK_NUM", "SEQ_NUM", "FLAGS"]);
        assert(views(r@) =~= seq!["ACK_NUM"@, "SEQ_NUM"@, "FLAGS"@]);
        r
    }

    pub fn check_inputs(&self, provided: usize) -> (r: Result<(), String>)
        ensures
            r is Ok <==> provided >= 3,
            r matches Err(m) ==> m@ == (if provided == 0 {
                "Missing ACK_NUM series"@
            } else if provided == 1 {
                "Missing SEQ_NUM series"@
            } else {
                "Missing FLAGS series"@
            }),
    {
        input_check(
            &["Missing ACK_NUM series", "Missing SEQ_NUM series", "Missing FLAGS series"],
            provided,
        )
    }
}

/// RETRANSMISSION events from a sequence-number series.
#[derive(Default)]
pub struct RetransmissionPlugin;

impl RetransmissionPlugin {
    pub fn name(&self) -> (r: &'static str)
        ensures
            r@ == "Retransmission Detector"@,
    {
        "Retransmission Detector"
    }

    pub fn description(&self) -> (r: &'static str)
        ensures
            r@
                == "Marks drops below the previous sequence high-water mark as boolean RETRANSMISSION events. Map the input to SEQ_NUM or SND_NXT."@,
    {
        "Marks drops below the previous sequence high-water mark as boolean RETRANSMISSION events. Map the input to SEQ_NUM or SND_NXT."
    }

    pub fn required_series(&self) -> (r: Vec<String>)
        ensures
            views(r@) == seq!["SEQ_NUM"@],
    {
        let r = strings_of(&["SEQ_NUM"]);
        assert(views(r@) =~= seq!["SEQ_NUM"@]);
        r
    }

    pub fn check_inputs(&self, provided: usize) -> (r: Result<(), String>)
        ensures
            r is Ok <==> provided >= 1,
            r matches Err(m) ==> m@ == "Missing SEQ_NUM/SND_NXT series"@,
    {
        input_check(&["Missing SEQ_NUM/SND_NXT series"], provided)
    }
}

/// CWND_UTILIZATION, SENDER_LIMITATION and SENDER_LIMITATION_LABEL.
#[derive(Default)]
pub struct SenderLimitationPlugin;

impl SenderLimitationPlugin {
    pub fn name(&self) -> (r: &'static str)
        ensures
            r@ == "Sender Limitation"@,
    {
        "Sender Limitation"
    }

    pub fn description(&self) -> (r: &'static str)
        ensures
            r@
                == "Estimates CWND_UTILIZATION and SENDER_LIMITATION: 0=not full, 1=cwnd-limited, 2=rwnd-limited."@,
    {
        "Estimates CWND_UTILIZATION and SENDER_LIMITATION: 0=not full, 1=cwnd-limited, 2=rwnd-limited."
    }

    pub fn required_series(&self) -> (r: Vec<String>)
        ensures
            views(r@) == seq!["SND_NXT"@, "SND_UNA"@, "SND_WND"@, "SND_CWND"@, "advmss"@],
    {
        let r = strings_of(&["SND_NXT", "SND_UNA", "SND_WND", "SND_CWND", "advmss"]);
        assert(views(r@) =~= seq!["SND_NXT"@, "SND_UNA"@, "SND_WND"@, "SND_CWND"@, "advmss"@]);
        r
    }

    pub fn check_inputs(&self, provided: usize) -> (r: Result<(), String>)
        ensures
            r is Ok <==> provided >= 5,
            r matches Err(m) ==> m@ == (if provided == 0 {
                "Missing SND_NXT series"@
            } else if provided == 1 {
                "Missing SND_UNA series"@
            } else if provided == 2 {
                "Missing SND_WND series"@
            } else if provided == 3 {
                "Missing SND_CWND series"@
            } else {
                "Missing advmss series"@
            }),
    {
        input_check(
            &[
                "Missing SND_NXT series",
                "Missing SND_UNA series",
                "Missing SND_WND series",
                "Missing SND_CWND series",
                "Missing advmss series",
            ],
            provided,
        )
    }
}

/// LOSS_EPISODE_ID from total_retrans.
#[derive(Default)]
pub struct LossEpisodePlugin;

impl LossEpisodePlugin {
    pub fn name(&self) -> (r: &'static str)
        ensures
            r@ == "Loss Episode Detector"@,
    {
        "Loss Episode Detector"
    }

    pub fn description(&self) -> (r: &'static str)
        ensures
            r@ == "Starts a new LOSS_EPISODE_ID whenever total_retrans increases."@,
    {
        "Starts a new LOSS_EPISODE_ID whenever total_retrans increases."
    }

    pub fn required_series(&self) -> (r: Vec<String>)
        ensures
            views(r@) == seq!["total_retrans"@],
    {
        let r = strings_of(&["total_retrans"]);
        assert(views(r@) =~= seq!["total_retrans"@]);
        r
    }

    pub fn check_inputs(&self, provided: usize) -> (r: Result<(), String>)
        ensures
            r is Ok <==> provided >= 1,
            r matches Err(m) ==> m@ == "Missing total_retrans series"@,
    {
        input_check(&["Missing total_retrans series"], provided)
    }
}

impl Default for DummyPlugin {
    fn default() -> (r: DummyPlugin)
        ensures
            views(r.required@) == seq!["ack_num"@, "seq_num"@],
    {
        DummyPlugin::new()
    }
}

impl Default for UpperWindowPlugin {
    fn default() -> (r: UpperWindowPlugin)
        ensures
            views(r.required@) == seq!["SND_UNA"@, "SND_WND"@],
    {
        UpperWindowPlugin::new()
    }
}

// ---------------------------------------------------------------------------
// Plugin instances and what they produce.

/// The series a plugin of each kind produces, in order: name, kind of values,
/// and colour (red, green, blue). The upper-window plugin's series holds the
/// kind its two inputs share (`shared_kind`). Every new series is stored under
/// `NEW_SERIES_ID` until it is saved.
pub open spec fn spec_plugin_outputs(kind: PluginKind, shared_kind: ValueKind) -> Seq<(Seq<char>, ValueKind, (u8, u8, u8))> {
    match kind {
        PluginKind::Dummy => seq![("tst_rndm"@, ValueKind::Float, (200u8, 80u8, 80u8))],
        PluginKind::UpperWindow => seq![("UPPER_WND"@, shared_kind, (80u8, 180u8, 80u8))],
        PluginKind::BytesInFlight => seq![("BYTES_IN_FLIGHT"@, ValueKind::Int, (90u8, 160u8, 220u8))],
        PluginKind::UsableSendWindow => seq![("USABLE_SND_WND"@, ValueKind::Int, (220u8, 160u8, 80u8))],
        PluginKind::DuplicateAck => seq![("DUP_ACK"@, ValueKind::Boolean, (230u8, 90u8, 90u8)), ("DUP_ACK_COUNT"@, ValueKind::Int, (230u8, 120u8, 90u8))],
        PluginKind::Retransmission => seq![("RETRANSMISSION"@, ValueKind::Boolean, (200u8, 60u8, 120u8))],
        PluginKind::SenderLimitation => seq![("CWND_UTILIZATION"@, ValueKind::Float, (120u8, 190u8, 120u8)), ("SENDER_LIMITATION"@, ValueKind::Int, (150u8, 120u8, 220u8)), ("SENDER_LIMITATION_LABEL"@, ValueKind::Text, (150u8, 120u8, 220u8))],
        PluginKind::LossEpisode => seq![("LOSS_EPISODE_ID"@, ValueKind::Int, (230u8, 130u8, 60u8))],
    }
}

/// The id a newly computed series carries until it is saved.
pub const NEW_SERIES_ID: i64 = -1;

/// The names of the series a plugin of each kind needs, in order.
pub open spec fn spec_plugin_inputs(kind: PluginKind) -> Seq<Seq<char>> {
    match kind {
        PluginKind::Dummy => seq!["ack_num"@, "seq_num"@],
        PluginKind::UpperWindow => seq!["SND_UNA"@, "SND_WND"@],
        PluginKind::BytesInFlight => seq!["SND_NXT"@, "SND_UNA"@],
        PluginKind::UsableSendWindow => seq!["SND_UNA"@, "SND_WND"@, "SND_NXT"@],
        PluginKind::DuplicateAck => seq!["ACK_NUM"@, "SEQ_NUM"@, "FLAGS"@],
        PluginKind::Retransmission => seq!["SEQ_NUM"@],
        PluginKind::SenderLimitation => seq!["SND_NXT"@, "SND_UNA"@, "SND_WND"@, "SND_CWND"@, "advmss"@],
        PluginKind::LossEpisode => seq!["total_retrans"@],
    }
}

impl PluginKind {
    /// The series the plugin produces (see `spec_plugin_outputs`).
    pub fn outputs(&self, shared_kind: ValueKind) -> (r: Vec<(&'static str, ValueKind, (u8, u8, u8))>)
        ensures
            r@.map_values(|o: (&'static str, ValueKind, (u8, u8, u8))| (o.0@, o.1, o.2))
                == spec_plugin_outputs(*self, shared_kind),
    {
        let mut r: Vec<(&'static str, ValueKind, (u8, u8, u8))> = Vec::new();
        match self {
            PluginKind::Dummy => {
                r.push(("tst_rndm", ValueKind::Float, (200, 80, 80)));
            },
            PluginKind::UpperWindow => {
                r.push(("UPPER_WND", shared_kind, (80, 180, 80)));
            },
            PluginKind::BytesInFlight => {
                r.push(("BYTES_IN_FLIGHT", ValueKind::Int, (90, 160, 220)));
            },
            PluginKind::UsableSendWindow => {
                r.push(("USABLE_SND_WND", ValueKind::Int, (220, 160, 80)));
            },
            PluginKind::DuplicateAck => {
                r.push(("DUP_ACK", ValueKind::Boolean, (230, 90, 90)));
                r.push(("DUP_ACK_COUNT", ValueKind::Int, (230, 120, 90)));
            },
            PluginKind::Retransmission => {
                r.push(("RETRANSMISSION", ValueKind::Boolean, (200, 60, 120)));
            },
            PluginKind::SenderLimitation => {
                r.push(("CWND_UTILIZATION", ValueKind::Float, (120, 190, 120)));
                r.push(("SENDER_LIMITATION", ValueKind::Int, (150, 120, 220)));
                r.push(("SENDER_LIMITATION_LABEL", ValueKind::Text, (150, 120, 220)));
            },
            PluginKind::LossEpisode => {
                r.push(("LOSS_EPISODE_ID", ValueKind::Int, (230, 130, 60)));
            },
        }
        assert(r@.map_values(|o: (&'static str, ValueKind, (u8, u8, u8))| (o.0@, o.1, o.2))
            =~= spec_plugin_outputs(*self, shared_kind));
        r
    }

    /// A fresh plugin of this kind.
    pub fn create(&self) -> (r: PluginInstance)
        ensures
            r.kind() == *self,
            r.fresh(),
    {
        match self {
            PluginKind::Dummy => PluginInstance::Dummy(DummyPlugin::new()),
            PluginKind::UpperWindow => PluginInstance::UpperWindow(UpperWindowPlugin::new()),
            PluginKind::BytesInFlight => PluginInstance::BytesInFlight(BytesInFlightPlugin),
            PluginKind::UsableSendWindow => PluginInstance::UsableSendWindow(UsableSendWindowPlugin),
            PluginKind::DuplicateAck => PluginInstance::DuplicateAck(DuplicateAckPlugin),
            PluginKind::Retransmission => PluginInstance::Retransmission(RetransmissionPlugin),
            PluginKind::SenderLimitation => PluginInstance::SenderLimitation(SenderLimitationPlugin),
            PluginKind::LossEpisode => PluginInstance::LossEpisode(LossEpisodePlugin),
        }
    }
}

/// A plugin of any kind.
pub enum PluginInstance {
    Dummy(DummyPlugin),
    UpperWindow(UpperWindowPlugin),
    BytesInFlight(BytesInFlightPlugin),
    UsableSendWindow(UsableSendWindowPlugin),
    DuplicateAck(DuplicateAckPlugin),
    Retransmission(RetransmissionPlugin),
    SenderLimitation(SenderLimitationPlugin),
    LossEpisode(LossEpisodePlugin),
}

impl PluginInstance {
    /// The kind of the plugin.
    pub open spec fn kind(&self) -> PluginKind {
        match self {
            PluginInstance::Dummy(_) => PluginKind::Dummy,
            PluginInstance::UpperWindow(_) => PluginKind::UpperWindow,
            PluginInstance::BytesInFlight(_) => PluginKind::BytesInFlight,
            PluginInstance::UsableSendWindow(_) => PluginKind::UsableSendWindow,
            PluginInstance::DuplicateAck(_) => PluginKind::DuplicateAck,
            PluginInstance::Retransmission(_) => PluginKind::Retransmission,
            PluginInstance::SenderLimitation(_) => PluginKind::SenderLimitation,
            PluginInstance::LossEpisode(_) => PluginKind::LossEpisode,
        }
    }

    /// The plugin's inputs are the ones its kind needs (as after `create`).
    pub open spec fn fresh(&self) -> bool {
        match self {
            PluginInstance::Dummy(p) => views(p.required@) == spec_plugin_inputs(PluginKind::Dummy),
            PluginInstance::UpperWindow(p) => views(p.required@) == spec_plugin_inputs(
                PluginKind::UpperWindow,
            ),
            _ => true,
        }
    }

    /// The plugin's name: the label under which its kind is offered.
    pub fn name(&self) -> (r: &'static str)
        ensures
            r@ == spec_plugin_label(self.kind()),
    {
        match self {
            PluginInstance::Dummy(p) => p.name(),
            PluginInstance::UpperWindow(p) => p.name(),
            PluginInstance::BytesInFlight(p) => p.name(),
            PluginInstance::UsableSendWindow(p) => p.name(),
            PluginInstance::DuplicateAck(p) => p.name(),
            PluginInstance::Retransmission(p) => p.name(),
            PluginInstance::SenderLimitation(p) => p.name(),
            PluginInstance::LossEpisode(p) => p.name(),
        }
    }

    /// The series the plugin needs.
    pub fn required_series(&self) -> (r: Vec<String>)
        requires
            self.fresh(),
        ensures
            views(r@) == spec_plugin_inputs(self.kind()),
    {
        match self {
            PluginInstance::Dummy(p) => p.required_series(),
            PluginInstance::UpperWindow(p) => p.required_series(),
            PluginInstance::BytesInFlight(p) => p.required_series(),
            PluginInstance::UsableSendWindow(p) => p.required_series(),
            PluginInstance::DuplicateAck(p) => p.required_series(),
            PluginInstance::Retransmission(p) => p.required_series(),
            PluginInstance::SenderLimitation(p) => p.required_series(),
            PluginInstance::LossEpisode(p) => p.required_series(),
        }
    }
}

/// Different plugin kinds are offered under different labels.
pub proof fn law_plugin_labels_distinct(a: PluginKind, b: PluginKind)
    requires
        a != b,
    ensures
        spec_plugin_label(a) != spec_plugin_label(b),
{
    reveal_strlit("Dummy Plugin");
    reveal_strlit("Upper TCP Window");
    reveal_strlit("Bytes In Flight");
    reveal_strlit("Usable Send Window");
    reveal_strlit("Duplicate ACK Detector");
    reveal_strlit("Retransmission Detector");
    reveal_strlit("Sender Limitation");
    reveal_strlit("Loss Episode Detector");
    assert(spec_plugin_label(a).len() != spec_plugin_label(b).len());
}

} // verus!
