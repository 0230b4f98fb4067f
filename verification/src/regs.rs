//! In-memory model of the USB peripheral's register file.
//!
//! The peripheral exposes four register groups per port — controller,
//! control endpoint, IN endpoint, OUT endpoint — each a small set of
//! interrupt, FIFO and address registers.  This module models them as plain
//! state: FIFO occupancy as byte vectors, pending and enable bits as
//! booleans, and the packets the IN machinery hands to the wire as a log.
//! The engine and the dispatcher are verified against this model; a
//! memory-mapped backing for real hardware must satisfy the same contracts.
//!
//! Transmission is synchronous in the model: committing the IN FIFO moves
//! its bytes onto the wire log at once and raises the IN-endpoint
//! interrupt, so the point at which real hardware reports "idle" is the
//! point just after commit here.
use vstd::prelude::*;

use crate::setup::{spec_direction, Direction, SetupPacket};

verus! {

/// Number of endpoint slots per direction tracked by the stall and
/// data-toggle registers.
pub const ENDPOINT_SLOTS: usize = 16;

/// One interrupt source of a port, in fixed dispatch priority order.
#[derive(Clone, Copy, Debug, PartialEq, Eq, Structural)]
pub enum UsbInterrupt {
    /// The device controller itself (bus reset).
    Controller,
    /// The control endpoint (SETUP packet latched).
    EpControl,
    /// The IN endpoint (transmission complete).
    EpIn,
    /// The OUT endpoint (packet received).
    EpOut,
}

/// A packet committed to the wire: the endpoint it left on and its bytes.
pub struct UsbPacket {
    pub endpoint: u8,
    pub bytes: Vec<u8>,
}

/// The controller register group.
pub struct ControllerRegs {
    pub ev_enable: bool,
    pub ev_pending: bool,
    pub connect: bool,
    /// Speed the hardware negotiated: 0 High, 1 Full, 2 Low, 3 SuperSpeed.
    pub speed: u8,
}

/// The control-endpoint register group.
pub struct EpControlRegs {
    pub ev_enable: bool,
    pub ev_pending: bool,
    pub address: u8,
    /// Endpoint number latched with the most recent SETUP packet.
    pub epno: u8,
    /// Unread SETUP bytes.
    pub fifo: Vec<u8>,
}

/// The IN-endpoint register group.
pub struct EpInRegs {
    pub ev_enable: bool,
    pub ev_pending: bool,
    /// Endpoint selected by the most recent write, also the endpoint of the
    /// most recently completed transmission.
    pub epno: u8,
    /// Bytes staged for transmission but not yet committed.
    pub fifo: Vec<u8>,
    /// Per-endpoint stall bits.
    pub stall: Vec<bool>,
    /// Per-endpoint data-PID toggle bits.
    pub pid: Vec<bool>,
}

/// The OUT-endpoint register group.
pub struct EpOutRegs {
    pub ev_enable: bool,
    pub ev_pending: bool,
    pub address: u8,
    /// Endpoint number that has received data.
    pub data_ep: u8,
    /// Endpoint selected by the most recent prime.
    pub epno: u8,
    pub primed: bool,
    pub enabled: bool,
    /// Received bytes awaiting a read.
    pub fifo: Vec<u8>,
    /// Per-endpoint stall bits.
    pub stall: Vec<bool>,
    /// Per-endpoint data-PID toggle bits.
    pub pid: Vec<bool>,
}

/// The register file of one USB port, plus the log of packets its IN
/// machinery has committed to the wire.
pub struct UsbRegisters {
    pub controller: ControllerRegs,
    pub ep_control: EpControlRegs,
    pub ep_in: EpInRegs,
    pub ep_out: EpOutRegs,
    /// Every packet committed so far, oldest first.  Real hardware has no
    /// such register; the log is the model's observable wire.
    pub sent: Vec<UsbPacket>,
}

impl UsbRegisters {
    /// Well-formedness: the per-endpoint bit vectors cover exactly the
    /// endpoint slots.
    pub open spec fn wf(self) -> bool {
        &&& self.ep_in.stall@.len() == ENDPOINT_SLOTS
        &&& self.ep_in.pid@.len() == ENDPOINT_SLOTS
        &&& self.ep_out.stall@.len() == ENDPOINT_SLOTS
        &&& self.ep_out.pid@.len() == ENDPOINT_SLOTS
    }

    /// The wire log as (endpoint, bytes) pairs, oldest first.
    pub open spec fn sent_view(self) -> Seq<(u8, Seq<u8>)> {
        self.sent@.map_values(|p: UsbPacket| (p.endpoint, p.bytes@))
    }

    /// A fresh register file: disconnected, idle, nothing pending, with the
    /// given negotiated speed.
    pub fn new(speed: u8) -> (r: UsbRegisters)
        ensures
            r.wf(),
            r.controller.ev_enable == false,
            r.controller.ev_pending == false,
            r.controller.connect == false,
            r.controller.speed == speed,
            r.ep_control.ev_enable == false,
            r.ep_control.ev_pending == false,
            r.ep_control.address == 0,
            r.ep_control.fifo@ == Seq::<u8>::empty(),
            r.ep_in.ev_enable == false,
            r.ep_in.ev_pending == false,
            r.ep_in.fifo@ == Seq::<u8>::empty(),
            r.ep_out.ev_enable == false,
            r.ep_out.ev_pending == false,
            r.ep_out.address == 0,
            r.ep_out.primed == false,
            r.ep_out.fifo@ == Seq::<u8>::empty(),
            r.sent_view() == Seq::<(u8, Seq<u8>)>::empty(),
            forall|i: int|
                0 <= i < 16 ==> r.ep_in.stall@[i] == false && r.ep_out.stall@[i] == false,
    {
        let mut in_stall: Vec<bool> = Vec::new();
        let mut in_pid: Vec<bool> = Vec::new();
        let mut out_stall: Vec<bool> = Vec::new();
        let mut out_pid: Vec<bool> = Vec::new();
        let mut i: usize = 0;
        while i < 16
            invariant
                i <= 16,
                in_stall@.len() == i,
                in_pid@.len() == i,
                out_stall@.len() == i,
                out_pid@.len() == i,
                forall|j: int|
                    0 <= j < i ==> in_stall@[j] == false && in_pid@[j] == false && out_stall@[j]
                        == false && out_pid@[j] == false,
            decreases 16 - i,
        {
            in_stall.push(false);
            in_pid.push(false);
            out_stall.push(false);
            out_pid.push(false);
            i = i + 1;
        }
        let r = UsbRegisters {
            controller: ControllerRegs {
                ev_enable: false,
                ev_pending: false,
                connect: false,
                speed,
            },
            ep_control: EpControlRegs {
                ev_enable: false,
                ev_pending: false,
                address: 0,
                epno: 0,
                fifo: Vec::new(),
            },
            ep_in: EpInRegs {
                ev_enable: false,
                ev_pending: false,
                epno: 0,
                fifo: Vec::new(),
                stall: in_stall,
                pid: in_pid,
            },
            ep_out: EpOutRegs {
                ev_enable: false,
                ev_pending: false,
                address: 0,
                data_ep: 0,
                epno: 0,
                primed: false,
                enabled: false,
                fifo: Vec::new(),
                stall: out_stall,
                pid: out_pid,
            },
            sent: Vec::new(),
        };
        proof {
            assert(r.sent_view() =~= Seq::<(u8, Seq<u8>)>::empty());
        }
        r
    }

    /// Whether the given interrupt source is pending.
    pub fn is_pending(&self, interrupt: UsbInterrupt) -> (r: bool)
        ensures
            r == match interrupt {
                UsbInterrupt::Controller => self.controller.ev_pending,
                UsbInterrupt::EpControl => self.ep_control.ev_pending,
                UsbInterrupt::EpIn => self.ep_in.ev_pending,
                UsbInterrupt::EpOut => self.ep_out.ev_pending,
            },
    {
        match interrupt {
            UsbInterrupt::Controller => self.controller.ev_pending,
            UsbInterrupt::EpControl => self.ep_control.ev_pending,
            UsbInterrupt::EpIn => self.ep_in.ev_pending,
            UsbInterrupt::EpOut => self.ep_out.ev_pending,
        }
    }

    /// Acknowledges the given interrupt source; idempotent.
    pub fn clear_pending(&mut self, interrupt: UsbInterrupt)
        ensures
            *final(self) == match interrupt {
                UsbInterrupt::Controller => (UsbRegisters {
                    controller: (ControllerRegs { ev_pending: false, ..old(self).controller }),
                    ..*old(self)
                }),
                UsbInterrupt::EpControl => (UsbRegisters {
                    ep_control: (EpControlRegs { ev_pending: false, ..old(self).ep_control }),
                    ..*old(self)
                }),
                UsbInterrupt::EpIn => (UsbRegisters {
                    ep_in: (EpInRegs { ev_pending: false, ..old(self).ep_in }),
                    ..*old(self)
                }),
                UsbInterrupt::EpOut => (UsbRegisters {
                    ep_out: (EpOutRegs { ev_pending: false, ..old(self).ep_out }),
                    ..*old(self)
                }),
            },
    {
        match interrupt {
            UsbInterrupt::Controller => {
                self.controller.ev_pending = false;
            },
            UsbInterrupt::EpControl => {
                self.ep_control.ev_pending = false;
            },
            UsbInterrupt::EpIn => {
                self.ep_in.ev_pending = false;
            },
            UsbInterrupt::EpOut => {
                self.ep_out.ev_pending = false;
            },
        }
    }

    /// Enables event delivery from the given interrupt source; idempotent.
    pub fn enable_interrupt(&mut self, interrupt: UsbInterrupt)
        ensures
            *final(self) == match interrupt {
                UsbInterrupt::Controller => (UsbRegisters {
                    controller: (ControllerRegs { ev_enable: true, ..old(self).controller }),
                    ..*old(self)
                }),
                UsbInterrupt::EpControl => (UsbRegisters {
                    ep_control: (EpControlRegs { ev_enable: true, ..old(self).ep_control }),
                    ..*old(self)
                }),
                UsbInterrupt::EpIn => (UsbRegisters {
                    ep_in: (EpInRegs { ev_enable: true, ..old(self).ep_in }),
                    ..*old(self)
                }),
                UsbInterrupt::EpOut => (UsbRegisters {
                    ep_out: (EpOutRegs { ev_enable: true, ..old(self).ep_out }),
                    ..*old(self)
                }),
            },
    {
        match interrupt {
            UsbInterrupt::Controller => {
                self.controller.ev_enable = true;
            },
            UsbInterrupt::EpControl => {
                self.ep_control.ev_enable = true;
            },
            UsbInterrupt::EpIn => {
                self.ep_in.ev_enable = true;
            },
            UsbInterrupt::EpOut => {
                self.ep_out.ev_enable = true;
            },
        }
    }

    /// Disables event delivery from the given interrupt source; idempotent.
    pub fn disable_interrupt(&mut self, interrupt: UsbInterrupt)
        ensures
            *final(self) == match interrupt {
                UsbInterrupt::Controller => (UsbRegisters {
                    controller: (ControllerRegs { ev_enable: false, ..old(self).controller }),
                    ..*old(self)
                }),
                UsbInterrupt::EpControl => (UsbRegisters {
                    ep_control: (EpControlRegs { ev_enable: false, ..old(self).ep_control }),
                    ..*old(self)
                }),
                UsbInterrupt::EpIn => (UsbRegisters {
                    ep_in: (EpInRegs { ev_enable: false, ..old(self).ep_in }),
                    ..*old(self)
                }),
                UsbInterrupt::EpOut => (UsbRegisters {
                    ep_out: (EpOutRegs { ev_enable: false, ..old(self).ep_out }),
                    ..*old(self)
                }),
            },
    {
        match interrupt {
            UsbInterrupt::Controller => {
                self.controller.ev_enable = false;
            },
            UsbInterrupt::EpControl => {
                self.ep_control.ev_enable = false;
            },
            UsbInterrupt::EpIn => {
                self.ep_in.ev_enable = false;
            },
            UsbInterrupt::EpOut => {
                self.ep_out.ev_enable = false;
            },
        }
    }

    /// Clears every pending bit and enables all four interrupt sources.
    pub fn enable_interrupts(&mut self)
        ensures
            *final(self) == (UsbRegisters {
                controller: (ControllerRegs {
                    ev_enable: true,
                    ev_pending: false,
                    ..old(self).controller
                }),
                ep_control: (EpControlRegs {
                    ev_enable: true,
                    ev_pending: false,
                    ..old(self).ep_control
                }),
                ep_in: (EpInRegs { ev_enable: true, ev_pending: false, ..old(self).ep_in }),
                ep_out: (EpOutRegs { ev_enable: true, ev_pending: false, ..old(self).ep_out }),
                ..*old(self)
            }),
    {
        self.clear_pending(UsbInterrupt::Controller);
        self.clear_pending(UsbInterrupt::EpControl);
        self.clear_pending(UsbInterrupt::EpIn);
        self.clear_pending(UsbInterrupt::EpOut);
        self.enable_interrupt(UsbInterrupt::Controller);
        self.enable_interrupt(UsbInterrupt::EpControl);
        self.enable_interrupt(UsbInterrupt::EpIn);
        self.enable_interrupt(UsbInterrupt::EpOut);
    }

    /// Clears every pending bit and disables all four interrupt sources.
    pub fn disable_interrupts(&mut self)
        ensures
            *final(self) == (UsbRegisters {
                controller: (ControllerRegs {
                    ev_enable: false,
                    ev_pending: false,
                    ..old(self).controller
                }),
                ep_control: (EpControlRegs {
                    ev_enable: false,
                    ev_pending: false,
                    ..old(self).ep_control
                }),
                ep_in: (EpInRegs { ev_enable: false, ev_pending: false, ..old(self).ep_in }),
                ep_out: (EpOutRegs { ev_enable: false, ev_pending: false, ..old(self).ep_out }),
                ..*old(self)
            }),
    {
        self.clear_pending(UsbInterrupt::Controller);
        self.clear_pending(UsbInterrupt::EpControl);
        self.clear_pending(UsbInterrupt::EpIn);
        self.clear_pending(UsbInterrupt::EpOut);
        self.disable_interrupt(UsbInterrupt::Controller);
        self.disable_interrupt(UsbInterrupt::EpControl);
        self.disable_interrupt(UsbInterrupt::EpIn);
        self.disable_interrupt(UsbInterrupt::EpOut);
    }

    /// Programs the device address into both registers that must agree:
    /// the control endpoint's and the OUT endpoint's.  The hardware field
    /// is seven bits wide.
    pub fn set_address(&mut self, address: u8)
        ensures
            *final(self) == (UsbRegisters {
                ep_control: (EpControlRegs { address: address & 0x7f, ..old(self).ep_control }),
                ep_out: (EpOutRegs { address: address & 0x7f, ..old(self).ep_out }),
                ..*old(self)
            }),
    {
        self.ep_out.address = address & 0x7f;
        self.ep_control.address = address & 0x7f;
    }

    /// The device address currently latched in the control endpoint group.
    pub fn ep_control_address(&self) -> (r: u8)
        ensures
            r == self.ep_control.address,
    {
        self.ep_control.address
    }

    /// Brings the interface up for new connections: drops the line, quiets
    /// every interrupt source, flushes all three FIFOs, then reconnects.
    /// Returns the negotiated speed code.
    pub fn connect(&mut self) -> (speed: u8)
        ensures
            speed == old(self).controller.speed,
            final(self).controller == (ControllerRegs {
                ev_enable: false,
                ev_pending: false,
                connect: true,
                speed: old(self).controller.speed,
            }),
            final(self).ep_control.ev_enable == false,
            final(self).ep_control.ev_pending == false,
            final(self).ep_control.address == old(self).ep_control.address,
            final(self).ep_control.epno == old(self).ep_control.epno,
            final(self).ep_control.fifo@ == Seq::<u8>::empty(),
            final(self).ep_in.ev_enable == false,
            final(self).ep_in.ev_pending == false,
            final(self).ep_in.epno == old(self).ep_in.epno,
            final(self).ep_in.fifo@ == Seq::<u8>::empty(),
            final(self).ep_in.stall == old(self).ep_in.stall,
            final(self).ep_in.pid == old(self).ep_in.pid,
            final(self).ep_out.ev_enable == false,
            final(self).ep_out.ev_pending == false,
            final(self).ep_out.address == old(self).ep_out.address,
            final(self).ep_out.data_ep == old(self).ep_out.data_ep,
            final(self).ep_out.epno == old(self).ep_out.epno,
            final(self).ep_out.primed == false,
            final(self).ep_out.enabled == old(self).ep_out.enabled,
            final(self).ep_out.fifo@ == Seq::<u8>::empty(),
            final(self).ep_out.stall == old(self).ep_out.stall,
            final(self).ep_out.pid == old(self).ep_out.pid,
            final(self).sent == old(self).sent,
    {
        self.controller.connect = false;
        self.disable_interrupts();
        self.ep_control.fifo.clear();
        self.ep_in.fifo.clear();
        self.ep_out.fifo.clear();
        self.ep_out.primed = false;
        self.controller.connect = true;
        self.controller.speed
    }

    /// Takes the interface down: quiets every interrupt source, resets the
    /// device address to zero, drops the line and flushes all three FIFOs.
    pub fn disconnect(&mut self)
        ensures
            final(self).controller == (ControllerRegs {
                ev_enable: false,
                ev_pending: false,
                connect: false,
                speed: old(self).controller.speed,
            }),
            final(self).ep_control.ev_enable == false,
            final(self).ep_control.ev_pending == false,
            final(self).ep_control.address == 0,
            final(self).ep_control.epno == old(self).ep_control.epno,
            final(self).ep_control.fifo@ == Seq::<u8>::empty(),
            final(self).ep_in.ev_enable == false,
            final(self).ep_in.ev_pending == false,
            final(self).ep_in.epno == old(self).ep_in.epno,
            final(self).ep_in.fifo@ == Seq::<u8>::empty(),
            final(self).ep_in.stall == old(self).ep_in.stall,
            final(self).ep_in.pid == old(self).ep_in.pid,
            final(self).ep_out.ev_enable == false,
            final(self).ep_out.ev_pending == false,
            final(self).ep_out.address == 0,
            final(self).ep_out.data_ep == old(self).ep_out.data_ep,
            final(self).ep_out.epno == old(self).ep_out.epno,
            final(self).ep_out.primed == false,
            final(self).ep_out.enabled == old(self).ep_out.enabled,
            final(self).ep_out.fifo@ == Seq::<u8>::empty(),
            final(self).ep_out.stall == old(self).ep_out.stall,
            final(self).ep_out.pid == old(self).ep_out.pid,
            final(self).sent == old(self).sent,
    {
        self.disable_interrupts();
        self.set_address(0);
        proof {
            assert(0u8 & 0x7f == 0) by (bit_vector);
        }
        self.controller.connect = false;
        self.ep_control.fifo.clear();
        self.ep_in.fifo.clear();
        self.ep_out.fifo.clear();
        self.ep_out.primed = false;
    }

    /// Performs a full reset: quiets the sources, resets the address to
    /// zero, flushes the FIFOs and re-enables everything.  Returns the
    /// negotiated speed code.
    pub fn reset(&mut self) -> (speed: u8)
        ensures
            speed == old(self).controller.speed,
            final(self).controller == (ControllerRegs {
                ev_enable: true,
                ev_pending: false,
                connect: old(self).controller.connect,
                speed: old(self).controller.speed,
            }),
            final(self).ep_control.ev_enable == true,
            final(self).ep_control.ev_pending == false,
            final(self).ep_control.address == 0,
            final(self).ep_control.epno == old(self).ep_control.epno,
            final(self).ep_control.fifo@ == Seq::<u8>::empty(),
            final(self).ep_in.ev_enable == true,
            final(self).ep_in.ev_pending == false,
            final(self).ep_in.epno == old(self).ep_in.epno,
            final(self).ep_in.fifo@ == Seq::<u8>::empty(),
            final(self).ep_in.stall == old(self).ep_in.stall,
            final(self).ep_in.pid == old(self).ep_in.pid,
            final(self).ep_out.ev_enable == true,
            final(self).ep_out.ev_pending == false,
            final(self).ep_out.address == 0,
            final(self).ep_out.data_ep == old(self).ep_out.data_ep,
            final(self).ep_out.epno == old(self).ep_out.epno,
            final(self).ep_out.primed == false,
            final(self).ep_out.enabled == old(self).ep_out.enabled,
            final(self).ep_out.fifo@ == Seq::<u8>::empty(),
            final(self).ep_out.stall == old(self).ep_out.stall,
            final(self).ep_out.pid == old(self).ep_out.pid,
            final(self).sent == old(self).sent,
    {
        self.disable_interrupts();
        self.set_address(0);
        proof {
            assert(0u8 & 0x7f == 0) by (bit_vector);
        }
        self.ep_control.fifo.clear();
        self.ep_in.fifo.clear();
        self.ep_out.fifo.clear();
        self.ep_out.primed = false;
        self.enable_interrupts();
        self.controller.speed
    }

    /// Performs a bus reset.  This differs from [`UsbRegisters::reset`] by
    /// leaving pending bits and the OUT interrupt enable untouched: only
    /// the controller, control and IN sources are disabled and re-enabled
    /// around the address and FIFO reset.  Returns the speed code.
    pub fn bus_reset(&mut self) -> (speed: u8)
        ensures
            speed == old(self).controller.speed,
            final(self).controller == (ControllerRegs {
                ev_enable: true,
                ..old(self).controller
            }),
            final(self).ep_control.ev_enable == true,
            final(self).ep_control.ev_pending == old(self).ep_control.ev_pending,
            final(self).ep_control.address == 0,
            final(self).ep_control.epno == old(self).ep_control.epno,
            final(self).ep_control.fifo@ == Seq::<u8>::empty(),
            final(self).ep_in.ev_enable == true,
            final(self).ep_in.ev_pending == old(self).ep_in.ev_pending,
            final(self).ep_in.epno == old(self).ep_in.epno,
            final(self).ep_in.fifo@ == Seq::<u8>::empty(),
            final(self).ep_in.stall == old(self).ep_in.stall,
            final(self).ep_in.pid == old(self).ep_in.pid,
            final(self).ep_out.ev_enable == old(self).ep_out.ev_enable,
            final(self).ep_out.ev_pending == old(self).ep_out.ev_pending,
            final(self).ep_out.address == 0,
            final(self).ep_out.data_ep == old(self).ep_out.data_ep,
            final(self).ep_out.epno == old(self).ep_out.epno,
            final(self).ep_out.primed == false,
            final(self).ep_out.enabled == old(self).ep_out.enabled,
            final(self).ep_out.fifo@ == Seq::<u8>::empty(),
            final(self).ep_out.stall == old(self).ep_out.stall,
            final(self).ep_out.pid == old(self).ep_out.pid,
            final(self).sent == old(self).sent,
    {
        self.disable_interrupt(UsbInterrupt::Controller);
        self.disable_interrupt(UsbInterrupt::EpControl);
        self.disable_interrupt(UsbInterrupt::EpIn);
        self.set_address(0);
        proof {
            assert(0u8 & 0x7f == 0) by (bit_vector);
        }
        self.ep_control.fifo.clear();
        self.ep_in.fifo.clear();
        self.ep_out.fifo.clear();
        self.ep_out.primed = false;
        self.enable_interrupt(UsbInterrupt::Controller);
        self.enable_interrupt(UsbInterrupt::EpControl);
        self.enable_interrupt(UsbInterrupt::EpIn);
        self.controller.speed
    }

    /// Whether the OUT FIFO holds unread data.
    pub fn out_has_data(&self) -> (r: bool)
        ensures
            r == (self.ep_out.fifo@.len() > 0),
    {
        self.ep_out.fifo.len() > 0
    }

    /// Pops the oldest unread byte off the OUT FIFO.
    pub fn out_pop_byte(&mut self) -> (b: u8)
        requires
            old(self).ep_out.fifo@.len() > 0,
        ensures
            b == old(self).ep_out.fifo@[0],
            *final(self) == (UsbRegisters {
                ep_out: (EpOutRegs { fifo: final(self).ep_out.fifo, ..old(self).ep_out }),
                ..*old(self)
            }),
            final(self).ep_out.fifo@ == old(self).ep_out.fifo@.drop_first(),
    {
        self.ep_out.fifo.remove(0)
    }

    /// Whether the IN transmit path is idle, i.e. no staged bytes remain.
    pub fn in_is_idle(&self) -> (r: bool)
        ensures
            r == (self.ep_in.fifo@.len() == 0),
    {
        self.ep_in.fifo.len() == 0
    }

    /// Stages one byte in the IN FIFO; nothing reaches the wire until the
    /// next commit.
    pub fn in_push_byte(&mut self, b: u8)
        ensures
            *final(self) == (UsbRegisters {
                ep_in: (EpInRegs { fifo: final(self).ep_in.fifo, ..old(self).ep_in }),
                ..*old(self)
            }),
            final(self).ep_in.fifo@ == old(self).ep_in.fifo@.push(b),
    {
        self.ep_in.fifo.push(b);
    }

    /// Commits the staged IN bytes as one packet on the given endpoint.
    /// An empty FIFO commits a zero-length packet — this is how ZLPs are
    /// sent.  Transmission is synchronous in the model, so the commit also
    /// raises the IN-endpoint interrupt that real hardware raises when the
    /// packet has left the wire.
    pub fn in_commit(&mut self, endpoint_number: u8)
        ensures
            final(self).ep_in.ev_enable == old(self).ep_in.ev_enable,
            final(self).ep_in.ev_pending == true,
            final(self).ep_in.epno == endpoint_number & 0xf,
            final(self).ep_in.fifo@ == Seq::<u8>::empty(),
            final(self).ep_in.stall == old(self).ep_in.stall,
            final(self).ep_in.pid == old(self).ep_in.pid,
            final(self).controller == old(self).controller,
            final(self).ep_control == old(self).ep_control,
            final(self).ep_out == old(self).ep_out,
            final(self).sent_view() == old(self).sent_view().push(
                ((endpoint_number & 0xf), old(self).ep_in.fifo@),
            ),
    {
        let mut staged: Vec<u8> = Vec::new();
        core::mem::swap(&mut self.ep_in.fifo, &mut staged);
        let packet = UsbPacket { endpoint: endpoint_number & 0xf, bytes: staged };
        self.sent.push(packet);
        self.ep_in.ev_pending = true;
        self.ep_in.epno = endpoint_number & 0xf;
        proof {
            assert(self.sent_view() =~= old(self).sent_view().push(
                ((endpoint_number & 0xf), old(self).ep_in.fifo@),
            ));
        }
    }

    /// Prepares the OUT endpoint to receive a single packet: flushes the
    /// receive buffer, selects the endpoint, primes and enables it.
    pub fn ep_out_prime_receive(&mut self, endpoint_number: u8)
        ensures
            final(self).ep_out.ev_enable == old(self).ep_out.ev_enable,
            final(self).ep_out.ev_pending == old(self).ep_out.ev_pending,
            final(self).ep_out.address == old(self).ep_out.address,
            final(self).ep_out.data_ep == old(self).ep_out.data_ep,
            final(self).ep_out.epno == endpoint_number & 0xf,
            final(self).ep_out.primed == true,
            final(self).ep_out.enabled == true,
            final(self).ep_out.fifo@ == Seq::<u8>::empty(),
            final(self).ep_out.stall == old(self).ep_out.stall,
            final(self).ep_out.pid == old(self).ep_out.pid,
            final(self).controller == old(self).controller,
            final(self).ep_control == old(self).ep_control,
            final(self).ep_in == old(self).ep_in,
            final(self).sent == old(self).sent,
    {
        self.ep_out.fifo.clear();
        self.ep_out.epno = endpoint_number & 0xf;
        self.ep_out.primed = true;
        self.ep_out.enabled = true;
    }

    /// Drains the control-endpoint FIFO into `buffer`.
    ///
    /// The first bytes land in the front of `buffer` (its length does not
    /// change); once the buffer is full the rest of the FIFO is read and
    /// discarded so the FIFO always empties.  Returns the count stored and
    /// the count discarded, distinctly.
    pub fn read_control(&mut self, buffer: &mut Vec<u8>) -> (r: (usize, usize))
        ensures
            ({
                let stored = if old(self).ep_control.fifo@.len() < old(buffer)@.len() {
                    old(self).ep_control.fifo@.len() as int
                } else {
                    old(buffer)@.len() as int
                };
                &&& r.0 == stored
                &&& r.1 == old(self).ep_control.fifo@.len() - stored
                &&& final(buffer)@ == old(self).ep_control.fifo@.take(stored) + old(buffer)@.skip(stored)
                &&& final(self).ep_control.ev_enable == old(self).ep_control.ev_enable
                &&& final(self).ep_control.ev_pending == old(self).ep_control.ev_pending
                &&& final(self).ep_control.address == old(self).ep_control.address
                &&& final(self).ep_control.epno == old(self).ep_control.epno
                &&& final(self).ep_control.fifo@ == Seq::<u8>::empty()
                &&& final(self).controller == old(self).controller
                &&& final(self).ep_in == old(self).ep_in
                &&& final(self).ep_out == old(self).ep_out
                &&& final(self).sent == old(self).sent
            }),
    {
        drain_fifo(&mut self.ep_control.fifo, buffer)
    }

    /// Drains the OUT-endpoint FIFO into `buffer`, exactly as
    /// [`UsbRegisters::read_control`] drains the control FIFO: stored
    /// count and discarded count are reported distinctly and the FIFO
    /// always empties.
    pub fn read(&mut self, _endpoint_number: u8, buffer: &mut Vec<u8>) -> (r: (usize, usize))
        ensures
            ({
                let stored = if old(self).ep_out.fifo@.len() < old(buffer)@.len() {
                    old(self).ep_out.fifo@.len() as int
                } else {
                    old(buffer)@.len() as int
                };
                &&& r.0 == stored
                &&& r.1 == old(self).ep_out.fifo@.len() - stored
                &&& final(buffer)@ == old(self).ep_out.fifo@.take(stored) + old(buffer)@.skip(
                    stored,
                )
                &&& final(self).ep_out.ev_enable == old(self).ep_out.ev_enable
                &&& final(self).ep_out.ev_pending == old(self).ep_out.ev_pending
                &&& final(self).ep_out.address == old(self).ep_out.address
                &&& final(self).ep_out.data_ep == old(self).ep_out.data_ep
                &&& final(self).ep_out.epno == old(self).ep_out.epno
                &&& final(self).ep_out.primed == old(self).ep_out.primed
                &&& final(self).ep_out.enabled == old(self).ep_out.enabled
                &&& final(self).ep_out.fifo@ == Seq::<u8>::empty()
                &&& final(self).ep_out.stall == old(self).ep_out.stall
                &&& final(self).ep_out.pid == old(self).ep_out.pid
                &&& final(self).controller == old(self).controller
                &&& final(self).ep_control == old(self).ep_control
                &&& final(self).ep_in == old(self).ep_in
                &&& final(self).sent == old(self).sent
            }),
    {
        drain_fifo(&mut self.ep_out.fifo, buffer)
    }

    /// Writes `data` to the IN endpoint as a single packet.
    ///
    /// A FIFO left with stale staged bytes is flushed first and the flush
    /// is reported — a diagnostic signal, not a fault.  The final commit is
    /// issued even for zero bytes; that is how ZLPs are sent.
    pub fn write(&mut self, endpoint_number: u8, data: &[u8]) -> (did_reset: bool)
        ensures
            did_reset == (old(self).ep_in.fifo@.len() > 0),
            final(self).ep_in.ev_enable == old(self).ep_in.ev_enable,
            final(self).ep_in.ev_pending == true,
            final(self).ep_in.epno == endpoint_number & 0xf,
            final(self).ep_in.fifo@ == Seq::<u8>::empty(),
            final(self).ep_in.stall == old(self).ep_in.stall,
            final(self).ep_in.pid == old(self).ep_in.pid,
            final(self).controller == old(self).controller,
            final(self).ep_control == old(self).ep_control,
            final(self).ep_out == old(self).ep_out,
            final(self).sent_view() == old(self).sent_view().push(
                ((endpoint_number & 0xf), data@),
            ),
    {
        let did_reset = self.ep_in.fifo.len() > 0;
        if did_reset {
            self.ep_in.fifo.clear();
        }
        let mut i: usize = 0;
        while i < data.len()
            invariant
                i <= data@.len(),
                self.ep_in.fifo@ == data@.take(i as int),
                self.ep_in.ev_enable == old(self).ep_in.ev_enable,
                self.ep_in.ev_pending == old(self).ep_in.ev_pending,
                self.ep_in.epno == old(self).ep_in.epno,
                self.ep_in.stall == old(self).ep_in.stall,
                self.ep_in.pid == old(self).ep_in.pid,
                self.controller == old(self).controller,
                self.ep_control == old(self).ep_control,
                self.ep_out == old(self).ep_out,
                self.sent == old(self).sent,
            decreases data@.len() - i,
        {
            let b = data[i];
            self.in_push_byte(b);
            proof {
                assert(self.ep_in.fifo@ =~= data@.take(i + 1));
            }
            i = i + 1;
        }
        proof {
            assert(data@.take(data@.len() as int) =~= data@);
        }
        self.in_commit(endpoint_number);
        did_reset
    }

    /// Writes `data` to the IN endpoint as multiple packets: a commit at
    /// every `packet_size` boundary that more data follows, and always a
    /// final commit for the rest — even for zero bytes, which is how ZLPs
    /// are sent.  A stale FIFO is flushed first and the flush reported.
    pub fn write_packets(&mut self, endpoint_number: u8, data: &[u8], packet_size: usize) -> (did_reset:
        bool)
        requires
            packet_size > 0,
        ensures
            did_reset == (old(self).ep_in.fifo@.len() > 0),
            final(self).ep_in.ev_enable == old(self).ep_in.ev_enable,
            final(self).ep_in.ev_pending == true,
            final(self).ep_in.epno == endpoint_number & 0xf,
            final(self).ep_in.fifo@ == Seq::<u8>::empty(),
            final(self).ep_in.stall == old(self).ep_in.stall,
            final(self).ep_in.pid == old(self).ep_in.pid,
            final(self).controller == old(self).controller,
            final(self).ep_control == old(self).ep_control,
            final(self).ep_out == old(self).ep_out,
            final(self).sent_view() == old(self).sent_view() + spec_sent_packets(
                endpoint_number & 0xf,
                spec_packets(data@, packet_size as int),
            ),
    {
        let did_reset = self.ep_in.fifo.len() > 0;
        if did_reset {
            self.ep_in.fifo.clear();
        }
        proof {
            assert(data@.skip(0) =~= data@);
        }
        let mut start: usize = 0;
        while data.len() - start > packet_size
            invariant
                packet_size > 0,
                start <= data@.len(),
                self.ep_in.fifo@.len() == 0,
                self.ep_in.ev_enable == old(self).ep_in.ev_enable,
                self.ep_in.stall == old(self).ep_in.stall,
                self.ep_in.pid == old(self).ep_in.pid,
                self.controller == old(self).controller,
                self.ep_control == old(self).ep_control,
                self.ep_out == old(self).ep_out,
                old(self).sent_view() + spec_sent_packets(
                    endpoint_number & 0xf,
                    spec_packets(data@, packet_size as int),
                ) == self.sent_view() + spec_sent_packets(
                    endpoint_number & 0xf,
                    spec_packets(data@.skip(start as int), packet_size as int),
                ),
            decreases data@.len() - start,
        {
            let ghost sent_before = self.sent_view();
            let end = start + packet_size;
            let mut k: usize = start;
            while k < end
                invariant
                    start <= k <= end,
                    end == start + packet_size,
                    end <= data@.len(),
                    self.ep_in.fifo@ == data@.subrange(start as int, k as int),
                    self.ep_in.ev_enable == old(self).ep_in.ev_enable,
                    self.ep_in.stall == old(self).ep_in.stall,
                    self.ep_in.pid == old(self).ep_in.pid,
                    self.controller == old(self).controller,
                    self.ep_control == old(self).ep_control,
                    self.ep_out == old(self).ep_out,
                    self.sent_view() == sent_before,
                decreases end - k,
            {
                let b = data[k];
                self.in_push_byte(b);
                proof {
                    assert(self.ep_in.fifo@ =~= data@.subrange(start as int, k + 1));
                }
                k = k + 1;
            }
            self.in_commit(endpoint_number);
            proof {
                let p = packet_size as int;
                let remaining = data@.skip(start as int);
                let chunk = data@.subrange(start as int, start + p);
                assert(remaining.take(p) =~= chunk);
                assert(remaining.skip(p) =~= data@.skip(start + p));
                assert(spec_packets(remaining, p) == seq![chunk] + spec_packets(
                    data@.skip(start + p),
                    p,
                ));
                lemma_sent_packets_concat(
                    endpoint_number & 0xf,
                    seq![chunk],
                    spec_packets(data@.skip(start + p), p),
                );
                assert(spec_sent_packets(endpoint_number & 0xf, seq![chunk]) =~= seq![
                    ((endpoint_number & 0xf), chunk),
                ]);
                assert(self.sent_view() == sent_before.push(((endpoint_number & 0xf), chunk)));
                assert(old(self).sent_view() + spec_sent_packets(
                    endpoint_number & 0xf,
                    spec_packets(data@, packet_size as int),
                ) =~= self.sent_view() + spec_sent_packets(
                    endpoint_number & 0xf,
                    spec_packets(data@.skip(start + p), p),
                ));
            }
            start = start + packet_size;
        }
        let ghost sent_before = self.sent_view();
        let n = data.len();
        let mut k: usize = start;
        while k < n
            invariant
                start <= k <= n,
                n == data@.len(),
                self.ep_in.fifo@ == data@.subrange(start as int, k as int),
                self.ep_in.ev_enable == old(self).ep_in.ev_enable,
                self.ep_in.stall == old(self).ep_in.stall,
                self.ep_in.pid == old(self).ep_in.pid,
                self.controller == old(self).controller,
                self.ep_control == old(self).ep_control,
                self.ep_out == old(self).ep_out,
                self.sent_view() == sent_before,
            decreases n - k,
        {
            let b = data[k];
            self.in_push_byte(b);
            proof {
                assert(self.ep_in.fifo@ =~= data@.subrange(start as int, k + 1));
            }
            k = k + 1;
        }
        self.in_commit(endpoint_number);
        proof {
            let p = packet_size as int;
            let remaining = data@.skip(start as int);
            assert(remaining.len() <= p);
            assert(data@.subrange(start as int, data@.len() as int) =~= remaining);
            assert(spec_packets(remaining, p) == seq![remaining]);
            assert(spec_sent_packets(endpoint_number & 0xf, seq![remaining]) =~= seq![
                ((endpoint_number & 0xf), remaining),
            ]);
            assert(self.sent_view() == sent_before.push(((endpoint_number & 0xf), remaining)));
            assert(final(self).sent_view() =~= old(self).sent_view() + spec_sent_packets(
                endpoint_number & 0xf,
                spec_packets(data@, packet_size as int),
            ));
        }
        did_reset
    }

    /// Acknowledges the status stage of a control transfer: the ack runs
    /// opposite to the data direction, so an IN transfer ends by priming a
    /// zero-length OUT read and an OUT transfer ends by sending a ZLP.
    pub fn ack_status_stage(&mut self, packet: &SetupPacket)
        ensures
            spec_direction(packet.request_type) == Direction::DeviceToHost ==> final(self).ep_out
                == (EpOutRegs {
                epno: 0,
                primed: true,
                enabled: true,
                fifo: final(self).ep_out.fifo,
                ..old(self).ep_out
            }) && final(self).ep_out.fifo@ == Seq::<u8>::empty() && final(self).ep_in == old(self).ep_in && final(self).sent == old(self).sent,
            spec_direction(packet.request_type) == Direction::HostToDevice ==> final(self).ep_out
                == old(self).ep_out && final(self).ep_in.ev_pending == true && final(self).ep_in.epno == 0 && final(self).ep_in.fifo@ == Seq::<u8>::empty() && final(self).ep_in.ev_enable == old(self).ep_in.ev_enable && final(self).ep_in.stall == old(self).ep_in.stall && final(self).ep_in.pid == old(self).ep_in.pid && final(self).sent_view() == old(self).sent_view().push((0u8, Seq::<u8>::empty())),
            final(self).controller == old(self).controller,
            final(self).ep_control == old(self).ep_control,
    {
        proof {
            assert(0u8 & 0xf == 0) by (bit_vector);
        }
        match Direction::from_endpoint_address(packet.request_type) {
            Direction::DeviceToHost => self.ep_out_prime_receive(0),
            Direction::HostToDevice => {
                let empty: [u8; 0] = [];
                let _did_reset = self.write(0, empty.as_slice());
                proof {
                    assert(empty@ =~= Seq::<u8>::empty());
                }
            },
        }
    }

    /// Acknowledges a transfer on the given endpoint: reads a ZLP from the
    /// host for device-to-host traffic, sends one for host-to-device.
    pub fn ack(&mut self, endpoint_number: u8, direction: Direction)
        ensures
            direction == Direction::DeviceToHost ==> final(self).ep_out == (EpOutRegs {
                epno: endpoint_number & 0xf,
                primed: true,
                enabled: true,
                fifo: final(self).ep_out.fifo,
                ..old(self).ep_out
            }) && final(self).ep_out.fifo@ == Seq::<u8>::empty() && final(self).ep_in == old(self).ep_in && final(self).sent == old(self).sent,
            direction == Direction::HostToDevice ==> final(self).ep_out == old(self).ep_out
                && final(self).ep_in.ev_pending == true && final(self).ep_in.epno == (
            endpoint_number & 0xf) && final(self).ep_in.fifo@ == Seq::<u8>::empty() && final(self).ep_in.ev_enable == old(self).ep_in.ev_enable && final(self).ep_in.stall == old(self).ep_in.stall && final(self).ep_in.pid == old(self).ep_in.pid && final(self).sent_view() == old(self).sent_view().push(
                ((endpoint_number & 0xf), Seq::<u8>::empty()),
            ),
            final(self).controller == old(self).controller,
            final(self).ep_control == old(self).ep_control,
    {
        match direction {
            Direction::DeviceToHost => self.ep_out_prime_receive(endpoint_number),
            Direction::HostToDevice => {
                let empty: [u8; 0] = [];
                let _did_reset = self.write(endpoint_number, empty.as_slice());
                proof {
                    assert(empty@ =~= Seq::<u8>::empty());
                }
            },
        }
    }

    /// Sets the stall bit for the given IN endpoint.
    pub fn stall_endpoint_in(&mut self, endpoint_number: u8)
        requires
            old(self).wf(),
        ensures
            final(self).wf(),
            final(self).ep_in.stall@ == old(self).ep_in.stall@.update(
                (endpoint_number & 0xf) as int,
                true,
            ),
            final(self).ep_in.epno == endpoint_number & 0xf,
            final(self).ep_in.ev_enable == old(self).ep_in.ev_enable,
            final(self).ep_in.ev_pending == old(self).ep_in.ev_pending,
            final(self).ep_in.fifo == old(self).ep_in.fifo,
            final(self).ep_in.pid == old(self).ep_in.pid,
            final(self).controller == old(self).controller,
            final(self).ep_control == old(self).ep_control,
            final(self).ep_out == old(self).ep_out,
            final(self).sent == old(self).sent,
    {
        proof {
            assert(endpoint_number & 0xf < 16) by (bit_vector);
        }
        self.ep_in.epno = endpoint_number & 0xf;
        let slot = (endpoint_number & 0xf) as usize;
        self.ep_in.stall[slot] = true;
    }

    /// Clears the stall bit for the given IN endpoint.
    pub fn unstall_endpoint_in(&mut self, endpoint_number: u8)
        requires
            old(self).wf(),
        ensures
            final(self).wf(),
            final(self).ep_in.stall@ == old(self).ep_in.stall@.update(
                (endpoint_number & 0xf) as int,
                false,
            ),
            final(self).ep_in.epno == endpoint_number & 0xf,
            final(self).ep_in.ev_enable == old(self).ep_in.ev_enable,
            final(self).ep_in.ev_pending == old(self).ep_in.ev_pending,
            final(self).ep_in.fifo == old(self).ep_in.fifo,
            final(self).ep_in.pid == old(self).ep_in.pid,
            final(self).controller == old(self).controller,
            final(self).ep_control == old(self).ep_control,
            final(self).ep_out == old(self).ep_out,
            final(self).sent == old(self).sent,
    {
        proof {
            assert(endpoint_number & 0xf < 16) by (bit_vector);
        }
        self.ep_in.epno = endpoint_number & 0xf;
        let slot = (endpoint_number & 0xf) as usize;
        self.ep_in.stall[slot] = false;
    }

    /// Sets the stall bit for the given OUT endpoint.
    pub fn stall_endpoint_out(&mut self, endpoint_number: u8)
        requires
            old(self).wf(),
        ensures
            final(self).wf(),
            final(self).ep_out.stall@ == old(self).ep_out.stall@.update(
                (endpoint_number & 0xf) as int,
                true,
            ),
            final(self).ep_out.epno == endpoint_number & 0xf,
            final(self).ep_out.ev_enable == old(self).ep_out.ev_enable,
            final(self).ep_out.ev_pending == old(self).ep_out.ev_pending,
            final(self).ep_out.address == old(self).ep_out.address,
            final(self).ep_out.data_ep == old(self).ep_out.data_ep,
            final(self).ep_out.primed == old(self).ep_out.primed,
            final(self).ep_out.enabled == old(self).ep_out.enabled,
            final(self).ep_out.fifo == old(self).ep_out.fifo,
            final(self).ep_out.pid == old(self).ep_out.pid,
            final(self).controller == old(self).controller,
            final(self).ep_control == old(self).ep_control,
            final(self).ep_in == old(self).ep_in,
            final(self).sent == old(self).sent,
    {
        proof {
            assert(endpoint_number & 0xf < 16) by (bit_vector);
        }
        self.ep_out.epno = endpoint_number & 0xf;
        let slot = (endpoint_number & 0xf) as usize;
        self.ep_out.stall[slot] = true;
    }

    /// Clears the stall bit for the given OUT endpoint.
    pub fn unstall_endpoint_out(&mut self, endpoint_number: u8)
        requires
            old(self).wf(),
        ensures
            final(self).wf(),
            final(self).ep_out.stall@ == old(self).ep_out.stall@.update(
                (endpoint_number & 0xf) as int,
                false,
            ),
            final(self).ep_out.epno == endpoint_number & 0xf,
            final(self).ep_out.ev_enable == old(self).ep_out.ev_enable,
            final(self).ep_out.ev_pending == old(self).ep_out.ev_pending,
            final(self).ep_out.address == old(self).ep_out.address,
            final(self).ep_out.data_ep == old(self).ep_out.data_ep,
            final(self).ep_out.primed == old(self).ep_out.primed,
            final(self).ep_out.enabled == old(self).ep_out.enabled,
            final(self).ep_out.fifo == old(self).ep_out.fifo,
            final(self).ep_out.pid == old(self).ep_out.pid,
            final(self).controller == old(self).controller,
            final(self).ep_control == old(self).ep_control,
            final(self).ep_in == old(self).ep_in,
            final(self).sent == old(self).sent,
    {
        proof {
            assert(endpoint_number & 0xf < 16) by (bit_vector);
        }
        self.ep_out.epno = endpoint_number & 0xf;
        let slot = (endpoint_number & 0xf) as usize;
        self.ep_out.stall[slot] = false;
    }

    /// Stalls the current control request by halting both directions of
    /// endpoint zero — the USB-defined signal that the request failed.
    pub fn stall_control_request(&mut self)
        requires
            old(self).wf(),
        ensures
            final(self).wf(),
            final(self).ep_in.stall@ == old(self).ep_in.stall@.update(0, true),
            final(self).ep_out.stall@ == old(self).ep_out.stall@.update(0, true),
            final(self).ep_in.epno == 0,
            final(self).ep_out.epno == 0,
            final(self).ep_in.ev_enable == old(self).ep_in.ev_enable,
            final(self).ep_in.ev_pending == old(self).ep_in.ev_pending,
            final(self).ep_in.fifo == old(self).ep_in.fifo,
            final(self).ep_in.pid == old(self).ep_in.pid,
            final(self).ep_out.ev_enable == old(self).ep_out.ev_enable,
            final(self).ep_out.ev_pending == old(self).ep_out.ev_pending,
            final(self).ep_out.address == old(self).ep_out.address,
            final(self).ep_out.data_ep == old(self).ep_out.data_ep,
            final(self).ep_out.primed == old(self).ep_out.primed,
            final(self).ep_out.enabled == old(self).ep_out.enabled,
            final(self).ep_out.fifo == old(self).ep_out.fifo,
            final(self).ep_out.pid == old(self).ep_out.pid,
            final(self).controller == old(self).controller,
            final(self).ep_control == old(self).ep_control,
            final(self).sent == old(self).sent,
    {
        proof {
            assert(0u8 & 0xf == 0) by (bit_vector);
        }
        self.stall_endpoint_in(0);
        self.stall_endpoint_out(0);
    }

    /// Clears the data-PID toggle bit for the endpoint the address names;
    /// the direction rides in the address's top bit.
    pub fn clear_feature_endpoint_halt(&mut self, endpoint_address: u8)
        requires
            old(self).wf(),
        ensures
            final(self).wf(),
            spec_direction(endpoint_address) == Direction::HostToDevice ==> final(self).ep_out.pid@
                == old(self).ep_out.pid@.update((endpoint_address & 0xf) as int, false) && final(self).ep_out.epno == (endpoint_address & 0xf) && final(self).ep_out.stall == old(self).ep_out.stall && final(self).ep_in == old(self).ep_in,
            spec_direction(endpoint_address) == Direction::DeviceToHost ==> final(self).ep_in.pid@
                == old(self).ep_in.pid@.update((endpoint_address & 0xf) as int, false) && final(self).ep_in.epno == (endpoint_address & 0xf) && final(self).ep_in.stall == old(self).ep_in.stall && final(self).ep_out == old(self).ep_out,
            final(self).ep_in.ev_enable == old(self).ep_in.ev_enable,
            final(self).ep_in.ev_pending == old(self).ep_in.ev_pending,
            final(self).ep_in.fifo == old(self).ep_in.fifo,
            final(self).ep_out.ev_enable == old(self).ep_out.ev_enable,
            final(self).ep_out.ev_pending == old(self).ep_out.ev_pending,
            final(self).ep_out.address == old(self).ep_out.address,
            final(self).ep_out.data_ep == old(self).ep_out.data_ep,
            final(self).ep_out.primed == old(self).ep_out.primed,
            final(self).ep_out.enabled == old(self).ep_out.enabled,
            final(self).ep_out.fifo == old(self).ep_out.fifo,
            final(self).controller == old(self).controller,
            final(self).ep_control == old(self).ep_control,
            final(self).sent == old(self).sent,
    {
        proof {
            assert(endpoint_address & 0xf < 16) by (bit_vector);
        }
        let endpoint_number = endpoint_address & 0xf;
        let slot = endpoint_number as usize;
        if endpoint_address & 0x80 == 0 {
            self.ep_out.epno = endpoint_number;
            self.ep_out.pid[slot] = false;
        } else {
            self.ep_in.epno = endpoint_number;
            self.ep_in.pid[slot] = false;
        }
    }

    /// Models the host latching a SETUP packet into the control endpoint:
    /// the FIFO is replaced by the packet's bytes, the endpoint number is
    /// latched and the control-endpoint interrupt goes pending.
    pub fn host_deliver_control(&mut self, endpoint: u8, data: &[u8])
        ensures
            final(self).ep_control.ev_enable == old(self).ep_control.ev_enable,
            final(self).ep_control.ev_pending == true,
            final(self).ep_control.address == old(self).ep_control.address,
            final(self).ep_control.epno == endpoint & 0xf,
            final(self).ep_control.fifo@ == data@,
            final(self).controller == old(self).controller,
            final(self).ep_in == old(self).ep_in,
            final(self).ep_out == old(self).ep_out,
            final(self).sent == old(self).sent,
    {
        self.ep_control.fifo.clear();
        let mut i: usize = 0;
        while i < data.len()
            invariant
                i <= data@.len(),
                self.ep_control.fifo@ == data@.take(i as int),
                self.ep_control.ev_enable == old(self).ep_control.ev_enable,
                self.ep_control.ev_pending == old(self).ep_control.ev_pending,
                self.ep_control.address == old(self).ep_control.address,
                self.ep_control.epno == old(self).ep_control.epno,
                self.controller == old(self).controller,
                self.ep_in == old(self).ep_in,
                self.ep_out == old(self).ep_out,
                self.sent == old(self).sent,
            decreases data@.len() - i,
        {
            let b = data[i];
            self.ep_control.fifo.push(b);
            proof {
                assert(self.ep_control.fifo@ =~= data@.take(i + 1));
            }
            i = i + 1;
        }
        proof {
            assert(data@.take(data@.len() as int) =~= data@);
        }
        self.ep_control.epno = endpoint & 0xf;
        self.ep_control.ev_pending = true;
    }

    /// Models the host sending a packet to a primed OUT endpoint: the
    /// receive FIFO takes the bytes, the data endpoint number is latched,
    /// the OUT interrupt goes pending and the prime is consumed.  An
    /// unprimed endpoint rejects the packet and nothing changes.
    pub fn host_deliver_out(&mut self, endpoint: u8, data: &[u8]) -> (accepted: bool)
        ensures
            accepted == old(self).ep_out.primed,
            !accepted ==> *final(self) == *old(self),
            accepted ==> final(self).ep_out.ev_enable == old(self).ep_out.ev_enable && final(self).ep_out.ev_pending == true && final(self).ep_out.address == old(self).ep_out.address
                && final(self).ep_out.data_ep == (endpoint & 0xf) && final(self).ep_out.epno == old(self).ep_out.epno && final(self).ep_out.primed == false && final(self).ep_out.enabled == old(self).ep_out.enabled && final(self).ep_out.fifo@ == data@ && final(self).ep_out.stall == old(self).ep_out.stall && final(self).ep_out.pid == old(self).ep_out.pid && final(self).controller == old(self).controller && final(self).ep_control == old(self).ep_control
                && final(self).ep_in == old(self).ep_in && final(self).sent == old(self).sent,
    {
        if !self.ep_out.primed {
            return false;
        }
        self.ep_out.fifo.clear();
        let mut i: usize = 0;
        while i < data.len()
            invariant
                i <= data@.len(),
                self.ep_out.fifo@ == data@.take(i as int),
                self.ep_out.ev_enable == old(self).ep_out.ev_enable,
                self.ep_out.ev_pending == old(self).ep_out.ev_pending,
                self.ep_out.address == old(self).ep_out.address,
                self.ep_out.data_ep == old(self).ep_out.data_ep,
                self.ep_out.epno == old(self).ep_out.epno,
                self.ep_out.primed == old(self).ep_out.primed,
                self.ep_out.enabled == old(self).ep_out.enabled,
                self.ep_out.stall == old(self).ep_out.stall,
                self.ep_out.pid == old(self).ep_out.pid,
                self.controller == old(self).controller,
                self.ep_control == old(self).ep_control,
                self.ep_in == old(self).ep_in,
                self.sent == old(self).sent,
            decreases data@.len() - i,
        {
            let b = data[i];
            self.ep_out.fifo.push(b);
            proof {
                assert(self.ep_out.fifo@ =~= data@.take(i + 1));
            }
            i = i + 1;
        }
        proof {
            assert(data@.take(data@.len() as int) =~= data@);
        }
        self.ep_out.data_ep = endpoint & 0xf;
        self.ep_out.ev_pending = true;
        self.ep_out.primed = false;
        true
    }

    /// Models the host driving a bus reset: the controller interrupt goes
    /// pending.
    pub fn host_signal_bus_reset(&mut self)
        ensures
            *final(self) == (UsbRegisters {
                controller: (ControllerRegs { ev_pending: true, ..old(self).controller }),
                ..*old(self)
            }),
    {
        self.controller.ev_pending = true;
    }
}

/// The pending-TX-ack flag: the one piece of state shared between
/// interrupt context and the main loop.  The main loop sets it before
/// issuing an address-dependent request; the interrupt dispatcher clears it
/// when the IN endpoint reports the transmission complete.  In firmware it
/// must live behind a single atomic or interrupt-masked operation; in this
/// sequential model one boolean suffices, and each operation below is one
/// such indivisible access.
pub struct TxAckFlag {
    pub active: bool,
}

impl TxAckFlag {
    /// A freshly created flag is clear.
    pub fn new() -> (r: TxAckFlag)
        ensures
            r.active == false,
    {
        TxAckFlag { active: false }
    }

    /// Marks a status-stage transmission as in flight.
    pub fn set_tx_ack_active(&mut self)
        ensures
            final(self).active == true,
    {
        self.active = true;
    }

    /// Records that the in-flight transmission completed.
    pub fn clear_tx_ack_active(&mut self)
        ensures
            final(self).active == false,
    {
        self.active = false;
    }

    /// Whether a status-stage transmission is still in flight.
    pub fn is_tx_ack_active(&self) -> (r: bool)
        ensures
            r == self.active,
    {
        self.active
    }
}

/// The wire-log entries a packetized write appends: every packet labelled
/// with the endpoint it leaves on.
pub open spec fn spec_sent_packets(endpoint: u8, packets: Seq<Seq<u8>>) -> Seq<(u8, Seq<u8>)> {
    packets.map_values(|bytes: Seq<u8>| (endpoint, bytes))
}

/// Labelling distributes over concatenation of packet runs.
proof fn lemma_sent_packets_concat(endpoint: u8, a: Seq<Seq<u8>>, b: Seq<Seq<u8>>)
    ensures
        spec_sent_packets(endpoint, a + b) == spec_sent_packets(endpoint, a) + spec_sent_packets(
            endpoint,
            b,
        ),
{
    assert(spec_sent_packets(endpoint, a + b) =~= spec_sent_packets(endpoint, a)
        + spec_sent_packets(endpoint, b));
}

/// The partition of `data` into wire packets at the given packet size: a
/// full chunk at every boundary that more data follows, and a final chunk —
/// possibly empty, possibly full — holding the rest.  Empty data yields one
/// zero-length packet.
pub open spec fn spec_packets(data: Seq<u8>, packet_size: int) -> Seq<Seq<u8>>
    recommends
        packet_size > 0,
    decreases data.len(),
{
    if packet_size <= 0 || data.len() <= packet_size {
        seq![data]
    } else {
        seq![data.take(packet_size)] + spec_packets(data.skip(packet_size), packet_size)
    }
}

/// Counts the packets of an exact-multiple write multiplicatively: the
/// packet count times the packet size gives back the byte count.
proof fn lemma_exact_multiple_packets_full(data: Seq<u8>, packet_size: int)
    requires
        packet_size > 0,
        data.len() as int % packet_size == 0,
        data.len() > 0,
    ensures
        spec_packets(data, packet_size).len() * packet_size == data.len(),
        forall|i: int|
            0 <= i < spec_packets(data, packet_size).len() ==> #[trigger] spec_packets(
                data,
                packet_size,
            )[i].len() == packet_size,
        spec_packets(data, packet_size).last() == data.skip(data.len() - packet_size),
    decreases data.len(),
{
    if data.len() <= packet_size {
        if data.len() < packet_size {
            vstd::arithmetic::div_mod::lemma_small_mod(data.len(), packet_size as nat);
        }
        assert(data.len() == packet_size);
        assert(data.skip(data.len() - packet_size) =~= data);
        assert(spec_packets(data, packet_size) == seq![data]);
        assert(spec_packets(data, packet_size).len() == 1);
        assert(1 * packet_size == packet_size) by (nonlinear_arith);
    } else {
        let rest = data.skip(packet_size);
        assert(rest.len() as int % packet_size == 0) by {
            vstd::arithmetic::div_mod::lemma_mod_sub_multiples_vanish(
                data.len() as int,
                packet_size,
            );
        }
        lemma_exact_multiple_packets_full(rest, packet_size);
        let packets = spec_packets(data, packet_size);
        let rest_packets = spec_packets(rest, packet_size);
        assert(packets == seq![data.take(packet_size)] + rest_packets);
        assert(packets.len() * packet_size == packet_size + rest_packets.len() * packet_size)
            by (nonlinear_arith)
            requires
                packets.len() == 1 + rest_packets.len(),
        ;
        assert(rest.skip(rest.len() - packet_size) =~= data.skip(data.len() - packet_size));
        assert(forall|i: int|
            0 <= i < packets.len() ==> #[trigger] packets[i].len() == packet_size) by {
            assert(packets[0].len() == packet_size);
            assert(forall|i: int|
                1 <= i < packets.len() ==> #[trigger] packets[i].len() == rest_packets[i
                    - 1].len());
        }
    }
}

/// Law: a write of `K` bytes at packet size `P` where `K` is an exact
/// multiple of `P` produces exactly `K/P` packets, each full, the last one
/// being the final commit; `K == 0` produces exactly one zero-length packet.
pub proof fn lemma_exact_multiple_packets(data: Seq<u8>, packet_size: int)
    requires
        packet_size > 0,
        data.len() as int % packet_size == 0,
    ensures
        data.len() == 0 ==> spec_packets(data, packet_size) == seq![data] && spec_packets(
            data,
            packet_size,
        )[0].len() == 0,
        data.len() > 0 ==> spec_packets(data, packet_size).len() == data.len() as int / packet_size
            && (forall|i: int|
            0 <= i < spec_packets(data, packet_size).len() ==> #[trigger] spec_packets(
                data,
                packet_size,
            )[i].len() == packet_size) && spec_packets(data, packet_size).last() == data.skip(
            data.len() - packet_size,
        ),
{
    if data.len() > 0 {
        lemma_exact_multiple_packets_full(data, packet_size);
        let n = spec_packets(data, packet_size).len() as int;
        vstd::arithmetic::div_mod::lemma_div_by_multiple(n, packet_size);
        assert(n * packet_size == data.len());
        assert((n * packet_size) / packet_size == n);
    }
}

/// Drains `fifo` into the front of `buffer` (whose length is unchanged),
/// reading and discarding whatever does not fit, and returns the stored
/// and discarded counts.
fn drain_fifo(fifo: &mut Vec<u8>, buffer: &mut Vec<u8>) -> (r: (usize, usize))
    ensures
        ({
            let stored = if old(fifo)@.len() < old(buffer)@.len() {
                old(fifo)@.len() as int
            } else {
                old(buffer)@.len() as int
            };
            &&& r.0 == stored
            &&& r.1 == old(fifo)@.len() - stored
            &&& final(fifo)@ == Seq::<u8>::empty()
            &&& final(buffer)@ == old(fifo)@.take(stored) + old(buffer)@.skip(stored)
        }),
{
    let fifo_len = fifo.len();
    let buffer_len = buffer.len();
    let stored = if fifo_len < buffer_len {
        fifo_len
    } else {
        buffer_len
    };
    let mut i: usize = 0;
    while i < stored
        invariant
            i <= stored,
            stored <= fifo_len,
            stored <= buffer_len,
            fifo_len == fifo@.len(),
            buffer_len == buffer@.len(),
            fifo@ == old(fifo)@,
            forall|j: int| 0 <= j < i ==> buffer@[j] == fifo@[j],
            forall|j: int| i <= j < buffer_len ==> buffer@[j] == old(buffer)@[j],
        decreases stored - i,
    {
        let b = fifo[i];
        buffer[i] = b;
        i = i + 1;
    }
    let overflow = fifo_len - stored;
    fifo.clear();
    proof {
        assert(final(buffer)@ =~= old(fifo)@.take(stored as int) + old(buffer)@.skip(
            stored as int,
        ));
    }
    (stored, overflow)
}

} // verus!
