//! The concrete USB composition: a protocol client bound to the
//! peripheral controller, wrapped by a syscall-facing driver that owns a
//! freshly reserved grant region.

use vstd::prelude::*;

use crate::capability::create_capability;
use crate::component::Component;
use crate::controller::Controller;
use crate::controller::lemma_controller_determined;
use crate::kernel::Grant;
use crate::kernel::Kernel;
use crate::kernel::lemma_grant_determined;
use crate::kernel::lemma_kernel_determined;
use crate::static_alloc::StaticRef;
use crate::static_alloc::StaticSlot;
use crate::static_alloc::lemma_static_ref_determined;
use crate::static_alloc::static_init;

verus! {

/// The largest control packet the peripheral controller accepts, in
/// bytes; the protocol client is configured with it at construction.
pub const MAX_CTRL_PACKET_SIZE: u8 = 8;

/// Low-level USB protocol callback handler. It is bound at construction
/// to the controller handle it serves and to the fixed maximum
/// control-packet size, and is exposed onward only by being registered as
/// the controller's callback target.
pub struct Client {
    controller: u64,
    max_ctrl_packet_size: u8,
}

impl Client {
    /// The identity of the controller handle this client is bound to.
    pub closed spec fn controller_id_spec(self) -> u64 {
        self.controller
    }

    /// The maximum control-packet size this client was configured with.
    pub closed spec fn max_ctrl_packet_size_spec(self) -> u8 {
        self.max_ctrl_packet_size
    }

    pub fn new(controller: u64, max_ctrl_packet_size: u8) -> (c: Client)
        ensures
            c.controller_id_spec() == controller,
            c.max_ctrl_packet_size_spec() == max_ctrl_packet_size,
    {
        Client { controller, max_ctrl_packet_size }
    }

    pub fn controller_id(&self) -> (r: u64)
        ensures
            r == self.controller_id_spec(),
    {
        self.controller
    }

    pub fn max_ctrl_packet_size(&self) -> (r: u8)
        ensures
            r == self.max_ctrl_packet_size_spec(),
    {
        self.max_ctrl_packet_size
    }
}

/// A client is determined by the controller it is bound to and its
/// configured maximum control-packet size.
pub proof fn lemma_client_determined(a: Client, b: Client)
    requires
        a.controller_id_spec() == b.controller_id_spec(),
        a.max_ctrl_packet_size_spec() == b.max_ctrl_packet_size_spec(),
    ensures
        a == b,
{
}

/// Syscall-facing USB driver: the only object of the composition exposed
/// to syscall dispatch. It exclusively owns the client singleton it wraps
/// (the controller refers to that client by identity alone) and the grant
/// region backing its per-process state.
pub struct UsbSyscallDriver {
    client: StaticRef<Client>,
    grant: Grant,
}

impl UsbSyscallDriver {
    /// The client singleton this driver wraps.
    pub closed spec fn client_spec(self) -> StaticRef<Client> {
        self.client
    }

    /// The grant region this driver owns.
    pub closed spec fn grant_spec(self) -> Grant {
        self.grant
    }

    pub fn new(client: StaticRef<Client>, grant: Grant) -> (d: UsbSyscallDriver)
        ensures
            d.client_spec() == client,
            d.grant_spec() == grant,
    {
        UsbSyscallDriver { client, grant }
    }

    pub fn client(&self) -> (r: &StaticRef<Client>)
        ensures
            *r == self.client_spec(),
    {
        &self.client
    }

    pub fn grant(&self) -> (r: &Grant)
        ensures
            *r == self.grant_spec(),
    {
        &self.grant
    }
}

/// A driver is determined by the client singleton it wraps and the grant
/// region it owns.
pub proof fn lemma_driver_determined(a: UsbSyscallDriver, b: UsbSyscallDriver)
    requires
        a.client_spec() == b.client_spec(),
        a.grant_spec() == b.grant_spec(),
    ensures
        a == b,
{
}

/// The static storage a USB composition writes into: one reserved cell
/// for the protocol client and one for the syscall driver. Correct
/// assembly reserves two distinct cells (e.g. by claiming both from one
/// [`crate::static_alloc::SlotFactory`]).
pub struct UsbStaticInput {
    pub client_slot: StaticSlot,
    pub driver_slot: StaticSlot,
}

/// The object graph a USB composition produces: the updated kernel and
/// controller handles, and the driver singleton that is handed to syscall
/// dispatch for the remainder of execution.
pub struct UsbOutput {
    pub board_kernel: Kernel,
    pub usbc: Controller,
    pub driver: StaticRef<UsbSyscallDriver>,
}

/// The USB composition: wires a controller handle to a protocol client,
/// registers the client as the controller's callback target, and wraps it
/// in a syscall driver owning a freshly created grant region.
pub struct UsbComponent {
    board_kernel: Kernel,
    usbc: Controller,
}

impl UsbComponent {
    /// The kernel handle this component will allocate its grant from.
    pub closed spec fn board_kernel_spec(self) -> Kernel {
        self.board_kernel
    }

    /// The controller handle this component wires its client to.
    pub closed spec fn usbc_spec(self) -> Controller {
        self.usbc
    }

    pub fn new(board_kernel: Kernel, usbc: Controller) -> (c: UsbComponent)
        ensures
            c.board_kernel_spec() == board_kernel,
            c.usbc_spec() == usbc,
    {
        UsbComponent { board_kernel, usbc }
    }
}

impl Component for UsbComponent {
    type StaticInput = UsbStaticInput;

    type Output = UsbOutput;

    /// Correct assembly hands `finalize` two distinct reserved cells and
    /// a kernel whose grant table is not exhausted.
    open spec fn finalize_pre(self, input: UsbStaticInput) -> bool {
        &&& input.client_slot.id_spec() != input.driver_slot.id_spec()
        &&& self.board_kernel_spec().grants_allocated_spec() < u64::MAX
    }

    /// The exact object graph finalization produces:
    /// - the client singleton occupies the reserved client cell, is bound
    ///   to this component's controller and to the fixed maximum
    ///   control-packet size;
    /// - the controller's registered callback target is exactly that
    ///   client singleton;
    /// - the driver singleton occupies the reserved driver cell, wraps
    ///   the client singleton, and owns the one grant region that was
    ///   created during finalization;
    /// - the kernel handle records that one further grant region exists,
    ///   and the controller handle is otherwise unchanged.
    open spec fn finalize_post(self, input: UsbStaticInput, out: UsbOutput) -> bool {
        let driver = out.driver.value_spec();
        let client = driver.client_spec();
        &&& out.driver.id_spec() == input.driver_slot.id_spec()
        &&& client.id_spec() == input.client_slot.id_spec()
        &&& client.value_spec().controller_id_spec() == self.usbc_spec().id_spec()
        &&& client.value_spec().max_ctrl_packet_size_spec() == MAX_CTRL_PACKET_SIZE
        &&& out.usbc.id_spec() == self.usbc_spec().id_spec()
        &&& out.usbc.registered_client_spec() == Some(client.id_spec())
        &&& driver.grant_spec().region_spec()
            == self.board_kernel_spec().grants_allocated_spec()
        &&& out.board_kernel.grants_allocated_spec()
            == self.board_kernel_spec().grants_allocated_spec() + 1
    }

    /// The deterministic, branch-free boot sequence: obtain the
    /// memory-allocation capability, statically construct the client,
    /// register it with the controller, then statically construct the
    /// driver around the client and a freshly created grant region.
    fn finalize(self, input: UsbStaticInput) -> (out: UsbOutput) {
        let UsbComponent { mut board_kernel, mut usbc } = self;
        let UsbStaticInput { client_slot, driver_slot } = input;

        let grant_cap = create_capability();

        // Configure the USB controller.
        let usb_client = static_init(
            client_slot,
            Client::new(usbc.id(), MAX_CTRL_PACKET_SIZE),
        );
        usbc.set_client(usb_client.id());

        // Configure the USB userspace driver.
        let grant = board_kernel.create_grant(&grant_cap);
        let usb_driver = static_init(driver_slot, UsbSyscallDriver::new(usb_client, grant));

        UsbOutput { board_kernel, usbc, driver: usb_driver }
    }
}

/// After finalization, the driver's client and the controller's
/// registered callback target are one and the same singleton: the driver
/// wraps exactly the client the controller will call back into.
pub proof fn lemma_driver_client_is_registered_target(
    c: UsbComponent,
    input: UsbStaticInput,
    out: UsbOutput,
)
    requires
        c.finalize_post(input, out),
    ensures
        out.usbc.registered_client_spec()
            == Some(out.driver.value_spec().client_spec().id_spec()),
{
}

/// Finalization is deterministic: the component and its static input
/// fully determine the output object graph. Hence two independent
/// components with disjoint dependencies produce identical graphs
/// whichever of them is finalized first.
pub proof fn lemma_finalize_deterministic(
    c: UsbComponent,
    input: UsbStaticInput,
    out_a: UsbOutput,
    out_b: UsbOutput,
)
    requires
        c.finalize_post(input, out_a),
        c.finalize_post(input, out_b),
    ensures
        out_a == out_b,
{
    lemma_kernel_determined(out_a.board_kernel, out_b.board_kernel);
    lemma_controller_determined(out_a.usbc, out_b.usbc);
    lemma_client_determined(
        out_a.driver.value_spec().client_spec().value_spec(),
        out_b.driver.value_spec().client_spec().value_spec(),
    );
    lemma_static_ref_determined(
        out_a.driver.value_spec().client_spec(),
        out_b.driver.value_spec().client_spec(),
    );
    lemma_grant_determined(
        out_a.driver.value_spec().grant_spec(),
        out_b.driver.value_spec().grant_spec(),
    );
    lemma_driver_determined(out_a.driver.value_spec(), out_b.driver.value_spec());
    lemma_static_ref_determined(out_a.driver, out_b.driver);
}

/// Compositions finalized over distinct reserved driver cells yield
/// distinct, non-aliasing driver singletons, in whatever order the two
/// finalizations ran.
pub proof fn lemma_outputs_non_aliasing(
    c_a: UsbComponent,
    in_a: UsbStaticInput,
    out_a: UsbOutput,
    c_b: UsbComponent,
    in_b: UsbStaticInput,
    out_b: UsbOutput,
)
    requires
        c_a.finalize_post(in_a, out_a),
        c_b.finalize_post(in_b, out_b),
        in_a.driver_slot.id_spec() != in_b.driver_slot.id_spec(),
    ensures
        out_a.driver.id_spec() != out_b.driver.id_spec(),
{
}

/// Within one well-assembled composition, the driver singleton and the
/// client singleton it wraps never claim the same identity.
pub proof fn lemma_driver_client_distinct(
    c: UsbComponent,
    input: UsbStaticInput,
    out: UsbOutput,
)
    requires
        c.finalize_pre(input),
        c.finalize_post(input, out),
    ensures
        out.driver.id_spec() != out.driver.value_spec().client_spec().id_spec(),
{
}

} // verus!
