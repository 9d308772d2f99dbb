use usb_component::capability::create_capability;
use usb_component::component::Component;
use usb_component::controller::Controller;
use usb_component::kernel::Kernel;
use usb_component::static_alloc::{static_init, SlotFactory};
use usb_component::usb::{UsbComponent, UsbOutput, UsbStaticInput, MAX_CTRL_PACKET_SIZE};

/// Every observation the composition's object graph offers, in one value.
fn graph_of(out: &UsbOutput) -> (u64, u64, Option<u64>, u64, u64, u64, u8, u64) {
    let driver = out.driver.get();
    (
        out.board_kernel.grants_allocated(),
        out.usbc.id(),
        out.usbc.registered_client(),
        out.driver.id(),
        driver.client().id(),
        driver.client().get().controller_id(),
        driver.client().get().max_ctrl_packet_size(),
        driver.grant().region(),
    )
}

#[test]
fn finalize_wires_client_to_controller() {
    let mut factory = SlotFactory::new();
    let client_slot = factory.claim();
    let driver_slot = factory.claim();
    let client_slot_id = client_slot.id();
    let driver_slot_id = driver_slot.id();

    let component = UsbComponent::new(Kernel::new(), Controller::new(7));
    let out = component.finalize(UsbStaticInput { client_slot, driver_slot });

    let driver = out.driver.get();
    // The driver's client is the very singleton the controller will call back into.
    assert_eq!(out.usbc.registered_client(), Some(driver.client().id()));
    assert_eq!(driver.client().id(), client_slot_id);
    assert_eq!(out.driver.id(), driver_slot_id);
    // The client is bound to this controller and to the fixed packet size.
    assert_eq!(driver.client().get().controller_id(), 7);
    assert_eq!(driver.client().get().max_ctrl_packet_size(), MAX_CTRL_PACKET_SIZE);
    assert_eq!(driver.client().get().max_ctrl_packet_size(), 8);
    // Exactly one grant region was created, and the driver owns it.
    assert_eq!(driver.grant().region(), 0);
    assert_eq!(out.board_kernel.grants_allocated(), 1);
}

#[test]
fn set_client_last_writer_wins() {
    let mut usbc = Controller::new(0);
    assert_eq!(usbc.registered_client(), None);
    usbc.set_client(1);
    assert_eq!(usbc.registered_client(), Some(1));
    // Registering a second client silently replaces the first.
    usbc.set_client(2);
    assert_eq!(usbc.registered_client(), Some(2));
    assert_eq!(usbc.id(), 0);
}

#[test]
fn independent_finalize_order_commutes() {
    // Two components with disjoint dependencies: their own kernels,
    // controllers, and reserved cells. Reservation order is fixed by the
    // assembly; only the finalization order differs between the runs.
    let (first_a, first_b) = {
        let mut factory = SlotFactory::new();
        let a_input =
            UsbStaticInput { client_slot: factory.claim(), driver_slot: factory.claim() };
        let b_input =
            UsbStaticInput { client_slot: factory.claim(), driver_slot: factory.claim() };
        let a = UsbComponent::new(Kernel::new(), Controller::new(10));
        let b = UsbComponent::new(Kernel::new(), Controller::new(20));
        let out_a = a.finalize(a_input);
        let out_b = b.finalize(b_input);
        (graph_of(&out_a), graph_of(&out_b))
    };
    let (second_a, second_b) = {
        let mut factory = SlotFactory::new();
        let a_input =
            UsbStaticInput { client_slot: factory.claim(), driver_slot: factory.claim() };
        let b_input =
            UsbStaticInput { client_slot: factory.claim(), driver_slot: factory.claim() };
        let a = UsbComponent::new(Kernel::new(), Controller::new(10));
        let b = UsbComponent::new(Kernel::new(), Controller::new(20));
        let out_b = b.finalize(b_input);
        let out_a = a.finalize(a_input);
        (graph_of(&out_a), graph_of(&out_b))
    };
    assert_eq!(first_a, second_a);
    assert_eq!(first_b, second_b);
}

#[test]
fn independent_outputs_are_distinct() {
    let mut factory = SlotFactory::new();
    let a_input = UsbStaticInput { client_slot: factory.claim(), driver_slot: factory.claim() };
    let b_input = UsbStaticInput { client_slot: factory.claim(), driver_slot: factory.claim() };
    let out_a =
        UsbComponent::new(Kernel::new(), Controller::new(1)).finalize(a_input);
    let out_b =
        UsbComponent::new(Kernel::new(), Controller::new(2)).finalize(b_input);
    // The two driver singletons, and the client singletons they wrap, are
    // four pairwise-distinct identities.
    let ids = [
        out_a.driver.id(),
        out_a.driver.get().client().id(),
        out_b.driver.id(),
        out_b.driver.get().client().id(),
    ];
    for i in 0..ids.len() {
        for j in 0..ids.len() {
            if i != j {
                assert_ne!(ids[i], ids[j]);
            }
        }
    }
}

#[test]
fn factory_issues_distinct_ids() {
    let mut factory = SlotFactory::new();
    let a = factory.claim();
    let b = factory.claim();
    let c = factory.claim();
    assert_ne!(a.id(), b.id());
    assert_ne!(a.id(), c.id());
    assert_ne!(b.id(), c.id());
}

#[test]
fn create_grant_reserves_successive_regions() {
    // Holding the capability token is the entire permission check:
    // `create_grant` cannot even be called without one.
    let cap = create_capability();
    let mut kernel = Kernel::new();
    let g0 = kernel.create_grant(&cap);
    let g1 = kernel.create_grant(&cap);
    assert_eq!(g0.region(), 0);
    assert_eq!(g1.region(), 1);
    assert_eq!(kernel.grants_allocated(), 2);
}

#[test]
fn static_init_keeps_identity_and_value() {
    let mut factory = SlotFactory::new();
    let slot = factory.claim();
    let slot_id = slot.id();
    let singleton = static_init(slot, 42u64);
    assert_eq!(singleton.id(), slot_id);
    assert_eq!(*singleton.get(), 42);
}
