use flutter_drm::output::FlutterEngineOptions;
use flutter_drm::udev::resources::has_crtc;
use flutter_drm::udev::{
    Candidate, Connector, ConnectorScan, ConnectorState, DrmResources, Encoder, OutputMap,
    UdevHandlerImpl, UdevOutputManagerHandler,
};
use std::cell::RefCell;

const CRTC0: u32 = 40;
const CRTC1: u32 = 41;
const CRTC2: u32 = 42;
const ENC0: u32 = 50;
const ENC1: u32 = 51;
const CONN_A: u32 = 60;
const CONN_B: u32 = 61;
const CONN_C: u32 = 62;

/// A policy that answers from a script and counts how often it is asked. When
/// the script runs out it accepts.
struct Scripted {
    answers: RefCell<Vec<bool>>,
    asked: RefCell<usize>,
}

impl Scripted {
    fn new(answers: &[bool]) -> Scripted {
        let mut answers = answers.to_vec();
        answers.reverse();
        Scripted {
            answers: RefCell::new(answers),
            asked: RefCell::new(0),
        }
    }

    fn asked(&self) -> usize {
        *self.asked.borrow()
    }
}

impl UdevOutputManagerHandler for Scripted {
    type Callback = u8;

    fn should_use_gpu(&self, path: &str) -> bool {
        path.starts_with("/dev/dri/card")
    }

    fn configure_output(&self) -> Option<FlutterEngineOptions<u8>> {
        let n = *self.asked.borrow();
        *self.asked.borrow_mut() = n + 1;
        let accept = self.answers.borrow_mut().pop().unwrap_or(true);
        if accept {
            Some(FlutterEngineOptions::new(
                format!("assets-{}", n),
                vec![String::from("--arg")],
            ))
        } else {
            None
        }
    }
}

fn connector(handle: u32, state: ConnectorState, encoders: &[Option<u32>]) -> Connector {
    Connector {
        handle,
        state,
        encoders: encoders.to_vec(),
    }
}

/// Connector A is connected and its encoder drives CRTC0 and CRTC1; connector
/// B is disconnected.
fn two_connectors() -> DrmResources {
    DrmResources {
        connectors: vec![
            connector(CONN_A, ConnectorState::Connected, &[Some(ENC0)]),
            connector(CONN_B, ConnectorState::Disconnected, &[Some(ENC0)]),
        ],
        encoders: vec![Encoder {
            handle: ENC0,
            possible_crtcs: 0b11,
        }],
        crtcs: vec![CRTC0, CRTC1],
    }
}

fn candidate(connector: u32, encoder: u32, crtc: u32) -> Candidate {
    Candidate {
        connector,
        encoder,
        crtc,
    }
}

fn assert_injective(bindings: &[Candidate]) {
    for i in 0..bindings.len() {
        for j in (i + 1)..bindings.len() {
            assert_ne!(bindings[i].crtc, bindings[j].crtc);
            assert_ne!(bindings[i].connector, bindings[j].connector);
        }
    }
}

#[test]
fn mask_bits_name_crtcs_by_index() {
    assert!(has_crtc(0b1, 0));
    assert!(!has_crtc(0b1, 1));
    assert!(has_crtc(0b110, 1));
    assert!(has_crtc(0b110, 2));
    assert!(!has_crtc(0b110, 0));
    assert!(has_crtc(0x8000_0000, 31));
    assert!(!has_crtc(0xffff_ffff, 32));
    assert!(!has_crtc(0xffff_ffff, usize::MAX));
}

#[test]
fn candidates_follow_the_device_order() {
    let resources = DrmResources {
        connectors: vec![
            connector(CONN_A, ConnectorState::Connected, &[Some(ENC1), None, Some(ENC0)]),
            connector(CONN_B, ConnectorState::Unknown, &[Some(ENC0)]),
            connector(CONN_C, ConnectorState::Connected, &[Some(ENC0), Some(99)]),
        ],
        encoders: vec![
            Encoder {
                handle: ENC0,
                possible_crtcs: 0b101,
            },
            Encoder {
                handle: ENC1,
                possible_crtcs: 0b010,
            },
        ],
        crtcs: vec![CRTC0, CRTC1, CRTC2],
    };
    assert_eq!(
        resources.list_candidates(),
        vec![
            candidate(CONN_A, ENC1, CRTC1),
            candidate(CONN_A, ENC0, CRTC0),
            candidate(CONN_A, ENC0, CRTC2),
            candidate(CONN_C, ENC0, CRTC0),
            candidate(CONN_C, ENC0, CRTC2),
        ]
    );
    assert_eq!(
        resources.encoder(ENC1),
        Some(Encoder {
            handle: ENC1,
            possible_crtcs: 0b010
        })
    );
    assert_eq!(resources.encoder(99), None);
    assert!(resources.has_connected(CONN_A));
    assert!(!resources.has_connected(CONN_B));
    assert!(!resources.has_connected(7));
}

#[test]
fn first_of_two_encoders_with_one_handle_is_used() {
    let resources = DrmResources {
        connectors: vec![connector(CONN_A, ConnectorState::Connected, &[Some(ENC0)])],
        encoders: vec![
            Encoder {
                handle: ENC0,
                possible_crtcs: 0b01,
            },
            Encoder {
                handle: ENC0,
                possible_crtcs: 0b10,
            },
        ],
        crtcs: vec![CRTC0, CRTC1],
    };
    assert_eq!(
        resources.list_candidates(),
        vec![candidate(CONN_A, ENC0, CRTC0)]
    );
}

#[test]
fn no_connected_connector_yields_no_output() {
    let resources = DrmResources {
        connectors: vec![
            connector(CONN_A, ConnectorState::Disconnected, &[Some(ENC0)]),
            connector(CONN_B, ConnectorState::Unknown, &[Some(ENC0)]),
        ],
        encoders: vec![Encoder {
            handle: ENC0,
            possible_crtcs: 0b11,
        }],
        crtcs: vec![CRTC0, CRTC1],
    };
    assert!(resources.list_candidates().is_empty());
    let policy = Scripted::new(&[]);
    let (outputs, options) = UdevHandlerImpl::scan_connectors(&resources, &policy);
    assert_eq!(outputs.len(), 0);
    assert!(outputs.bindings().is_empty());
    assert!(options.is_empty());
    assert_eq!(policy.asked(), 0);
}

#[test]
fn device_without_anything_yields_no_output() {
    let resources = DrmResources {
        connectors: vec![],
        encoders: vec![],
        crtcs: vec![],
    };
    let policy = Scripted::new(&[]);
    let (outputs, options) = UdevHandlerImpl::scan_connectors(&resources, &policy);
    assert_eq!(outputs.len(), 0);
    assert!(options.is_empty());
    assert_eq!(policy.asked(), 0);
}

#[test]
fn connected_connector_is_bound_to_its_first_crtc() {
    let policy = Scripted::new(&[]);
    let (outputs, options) = UdevHandlerImpl::scan_connectors(&two_connectors(), &policy);
    assert_eq!(
        outputs.bindings(),
        &vec![candidate(CONN_A, ENC0, CRTC0)]
    );
    assert_eq!(outputs.len(), 1);
    assert_eq!(options.len(), 1);
    assert_eq!(options[0].assets_path, "assets-0");
    assert_eq!(policy.asked(), 1);
}

#[test]
fn declined_crtc_is_passed_over_for_the_next() {
    let policy = Scripted::new(&[false, true]);
    let (outputs, options) = UdevHandlerImpl::scan_connectors(&two_connectors(), &policy);
    assert_eq!(
        outputs.bindings(),
        &vec![candidate(CONN_A, ENC0, CRTC1)]
    );
    assert_eq!(outputs.get(CRTC1), Some(candidate(CONN_A, ENC0, CRTC1)));
    assert_eq!(outputs.get(CRTC0), None);
    assert_eq!(options.len(), 1);
    assert_eq!(options[0].assets_path, "assets-1");
    assert_eq!(policy.asked(), 2);
}

#[test]
fn policy_that_declines_everything_yields_no_output() {
    let policy = Scripted::new(&[false, false, false, false]);
    let (outputs, options) = UdevHandlerImpl::scan_connectors(&two_connectors(), &policy);
    assert_eq!(outputs.len(), 0);
    assert!(options.is_empty());
    assert_eq!(policy.asked(), 2);
}

#[test]
fn a_connector_gets_one_output_even_with_two_encoders() {
    let resources = DrmResources {
        connectors: vec![connector(
            CONN_A,
            ConnectorState::Connected,
            &[Some(ENC0), Some(ENC1)],
        )],
        encoders: vec![
            Encoder {
                handle: ENC0,
                possible_crtcs: 0b11,
            },
            Encoder {
                handle: ENC1,
                possible_crtcs: 0b11,
            },
        ],
        crtcs: vec![CRTC0, CRTC1],
    };
    let policy = Scripted::new(&[]);
    let (outputs, _) = UdevHandlerImpl::scan_connectors(&resources, &policy);
    assert_eq!(
        outputs.bindings(),
        &vec![candidate(CONN_A, ENC0, CRTC0)]
    );
    assert_eq!(policy.asked(), 1);
}

#[test]
fn declined_encoder_leaves_the_next_encoder_to_try() {
    let resources = DrmResources {
        connectors: vec![connector(
            CONN_A,
            ConnectorState::Connected,
            &[Some(ENC0), Some(ENC1)],
        )],
        encoders: vec![
            Encoder {
                handle: ENC0,
                possible_crtcs: 0b01,
            },
            Encoder {
                handle: ENC1,
                possible_crtcs: 0b10,
            },
        ],
        crtcs: vec![CRTC0, CRTC1],
    };
    let policy = Scripted::new(&[false, true]);
    let (outputs, _) = UdevHandlerImpl::scan_connectors(&resources, &policy);
    assert_eq!(
        outputs.bindings(),
        &vec![candidate(CONN_A, ENC1, CRTC1)]
    );
}

#[test]
fn no_two_outputs_share_a_crtc() {
    let resources = DrmResources {
        connectors: vec![
            connector(CONN_A, ConnectorState::Connected, &[Some(ENC0)]),
            connector(CONN_B, ConnectorState::Connected, &[Some(ENC0)]),
            connector(CONN_C, ConnectorState::Connected, &[Some(ENC0), Some(ENC1)]),
        ],
        encoders: vec![
            Encoder {
                handle: ENC0,
                possible_crtcs: 0b011,
            },
            Encoder {
                handle: ENC1,
                possible_crtcs: 0b111,
            },
        ],
        crtcs: vec![CRTC0, CRTC1, CRTC2],
    };
    let policy = Scripted::new(&[]);
    let (outputs, _) = UdevHandlerImpl::scan_connectors(&resources, &policy);
    assert_eq!(
        outputs.bindings(),
        &vec![
            candidate(CONN_A, ENC0, CRTC0),
            candidate(CONN_B, ENC0, CRTC1),
            candidate(CONN_C, ENC1, CRTC2),
        ]
    );
    assert_injective(outputs.bindings());

    for script in 0..64u32 {
        let answers: Vec<bool> = (0..6).map(|bit| script & (1 << bit) != 0).collect();
        let policy = Scripted::new(&answers);
        let (outputs, options) = UdevHandlerImpl::scan_connectors(&resources, &policy);
        assert_injective(outputs.bindings());
        assert_eq!(outputs.len(), options.len());
        let all = resources.list_candidates();
        for binding in outputs.bindings() {
            assert!(all.contains(binding));
        }
    }
}

#[test]
fn more_connectors_than_crtcs_leaves_connectors_dark() {
    let resources = DrmResources {
        connectors: vec![
            connector(CONN_A, ConnectorState::Connected, &[Some(ENC0)]),
            connector(CONN_B, ConnectorState::Connected, &[Some(ENC0)]),
        ],
        encoders: vec![Encoder {
            handle: ENC0,
            possible_crtcs: 0b1,
        }],
        crtcs: vec![CRTC0],
    };
    let policy = Scripted::new(&[]);
    let (outputs, _) = UdevHandlerImpl::scan_connectors(&resources, &policy);
    assert_eq!(
        outputs.bindings(),
        &vec![candidate(CONN_A, ENC0, CRTC0)]
    );
    assert_eq!(policy.asked(), 1);
}

#[test]
fn scan_machine_asks_candidate_by_candidate() {
    let mut scan = ConnectorScan::new(&two_connectors());
    assert_eq!(scan.next_candidate(), Some(candidate(CONN_A, ENC0, CRTC0)));
    assert_eq!(scan.next_candidate(), Some(candidate(CONN_A, ENC0, CRTC0)));
    scan.decide(false);
    assert_eq!(scan.next_candidate(), Some(candidate(CONN_A, ENC0, CRTC1)));
    scan.decide(true);
    assert_eq!(scan.next_candidate(), None);
    scan.decide(true);
    assert_eq!(scan.next_candidate(), None);
    assert_eq!(
        scan.finish().bindings(),
        &vec![candidate(CONN_A, ENC0, CRTC1)]
    );
}

#[test]
fn answer_without_a_question_changes_nothing() {
    let mut scan = ConnectorScan::new(&two_connectors());
    scan.decide(true);
    assert_eq!(scan.next_candidate(), Some(candidate(CONN_A, ENC0, CRTC0)));
    scan.decide(true);
    scan.decide(true);
    assert_eq!(scan.next_candidate(), None);
    assert_eq!(scan.finish().len(), 1);
}

#[test]
fn rescan_leaves_existing_outputs_untouched() {
    let resources = DrmResources {
        connectors: vec![
            connector(CONN_A, ConnectorState::Connected, &[Some(ENC0)]),
            connector(CONN_B, ConnectorState::Connected, &[Some(ENC0)]),
        ],
        encoders: vec![Encoder {
            handle: ENC0,
            possible_crtcs: 0b11,
        }],
        crtcs: vec![CRTC0, CRTC1],
    };
    let mut existing = OutputMap::new();
    assert!(existing.insert(candidate(CONN_A, ENC0, CRTC1)));
    let mut scan = ConnectorScan::resume(&resources, existing);
    assert_eq!(scan.next_candidate(), Some(candidate(CONN_B, ENC0, CRTC0)));
    scan.decide(true);
    assert_eq!(scan.next_candidate(), None);
    assert_eq!(
        scan.finish().bindings(),
        &vec![
            candidate(CONN_A, ENC0, CRTC1),
            candidate(CONN_B, ENC0, CRTC0)
        ]
    );
}

#[test]
fn output_map_refuses_a_second_binding() {
    let mut map = OutputMap::new();
    assert_eq!(map.len(), 0);
    assert!(map.admits(&candidate(CONN_A, ENC0, CRTC0)));
    assert!(map.insert(candidate(CONN_A, ENC0, CRTC0)));
    assert!(!map.admits(&candidate(CONN_B, ENC0, CRTC0)));
    assert!(!map.insert(candidate(CONN_B, ENC0, CRTC0)));
    assert!(!map.insert(candidate(CONN_A, ENC1, CRTC1)));
    assert!(map.insert(candidate(CONN_B, ENC1, CRTC1)));
    assert_eq!(map.len(), 2);
    assert_injective(map.bindings());
    assert_eq!(map.get(CRTC0), Some(candidate(CONN_A, ENC0, CRTC0)));
    assert_eq!(map.get(CRTC2), None);
}

#[test]
fn output_map_removes_by_crtc() {
    let mut map = OutputMap::new();
    map.insert(candidate(CONN_A, ENC0, CRTC0));
    map.insert(candidate(CONN_B, ENC0, CRTC1));
    map.insert(candidate(CONN_C, ENC0, CRTC2));
    assert_eq!(map.remove(CRTC1), Some(candidate(CONN_B, ENC0, CRTC1)));
    assert_eq!(map.remove(CRTC1), None);
    assert_eq!(
        map.bindings(),
        &vec![
            candidate(CONN_A, ENC0, CRTC0),
            candidate(CONN_C, ENC0, CRTC2)
        ]
    );
    assert!(map.insert(candidate(CONN_B, ENC1, CRTC1)));
}

#[test]
fn policy_is_asked_about_eligibility_by_path() {
    let policy = Scripted::new(&[]);
    assert!(policy.should_use_gpu("/dev/dri/card0"));
    assert!(!policy.should_use_gpu("/dev/dri/renderD128"));
}

#[test]
fn options_follow_the_bindings_in_order() {
    let resources = DrmResources {
        connectors: vec![
            connector(CONN_A, ConnectorState::Connected, &[Some(ENC0)]),
            connector(CONN_B, ConnectorState::Connected, &[Some(ENC0)]),
            connector(CONN_C, ConnectorState::Connected, &[Some(ENC0)]),
        ],
        encoders: vec![Encoder {
            handle: ENC0,
            possible_crtcs: 0b111,
        }],
        crtcs: vec![CRTC0, CRTC1, CRTC2],
    };
    // asked about A/CRTC0 (no), A/CRTC1 (yes), B/CRTC0 (yes), C/CRTC2 (yes)
    let policy = Scripted::new(&[false, true, true, true]);
    let (outputs, options) = UdevHandlerImpl::scan_connectors(&resources, &policy);
    assert_eq!(
        outputs.bindings(),
        &vec![
            candidate(CONN_A, ENC0, CRTC1),
            candidate(CONN_B, ENC0, CRTC0),
            candidate(CONN_C, ENC0, CRTC2),
        ]
    );
    let paths: Vec<&str> = options.iter().map(|o| o.assets_path.as_str()).collect();
    assert_eq!(paths, vec!["assets-1", "assets-2", "assets-3"]);
    assert_eq!(policy.asked(), 4);
}
