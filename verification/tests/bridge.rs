use axum_xitca::{
    response_poll_next, BodyHandle, CallState, HeaderField, InboundExt, InboundRequest,
    InnerBodyHandle, InnerPoll, InnerResponse, PeerAddr, PeerIp, RequestHead, ResponseHead,
    SourcePoll, SvcError, TowerHttp,
};

fn get_root_request(peer: PeerAddr) -> InboundRequest {
    InboundRequest {
        head: RequestHead {
            method: b"GET".to_vec(),
            uri: b"/".to_vec(),
            version: 1,
            headers: vec![HeaderField {
                name: b"host".to_vec(),
                value: b"localhost".to_vec(),
            }],
        },
        ext: InboundExt {
            peer,
            other: vec![7, 9],
        },
        body: BodyHandle { id: 1 },
    }
}

#[test]
fn peer_address_round_trip() {
    let peer = PeerAddr {
        ip: PeerIp::V4(127, 0, 0, 1),
        port: 5555,
    };
    let mut bridge = TowerHttp::service();
    let translated = bridge.begin_call(get_root_request(peer));
    assert_eq!(translated.connect_info(), Some(peer));
}

#[test]
fn peer_address_round_trip_v6() {
    let peer = PeerAddr {
        ip: PeerIp::V6(0, 0, 0, 0, 0, 0, 0, 1),
        port: 8080,
    };
    let mut bridge = TowerHttp::service();
    let translated = bridge.begin_call(get_root_request(peer));
    assert_eq!(translated.connect_info(), Some(peer));
}

#[test]
fn head_passes_through_unmodified() {
    let peer = PeerAddr {
        ip: PeerIp::V4(127, 0, 0, 1),
        port: 5555,
    };
    let mut bridge = TowerHttp::service();
    let translated = bridge.begin_call(get_root_request(peer));
    assert_eq!(translated.head.method, b"GET".to_vec());
    assert_eq!(translated.head.uri, b"/".to_vec());
    assert_eq!(translated.head.version, 1);
    assert_eq!(translated.head.headers.len(), 1);
    assert_eq!(translated.head.headers[0].name, b"host".to_vec());
    assert_eq!(translated.head.headers[0].value, b"localhost".to_vec());
}

#[test]
fn body_handle_rewrapped_not_copied() {
    let peer = PeerAddr {
        ip: PeerIp::V4(127, 0, 0, 1),
        port: 5555,
    };
    let mut bridge = TowerHttp::service();
    let translated = bridge.begin_call(get_root_request(peer));
    // The forced-transferable wrapper holds the very same body handle.
    assert_eq!(translated.body.inner, BodyHandle { id: 1 });
}

#[test]
fn hello_world_scenario() {
    // Request `GET /` with empty body from 127.0.0.1:5555; the inner handler
    // answers 200 OK with body "hello,world!"; the bridge must emit status
    // 200, unmodified headers, and a streaming body yielding exactly one
    // chunk "hello,world!" followed by end of stream.
    let peer = PeerAddr {
        ip: PeerIp::V4(127, 0, 0, 1),
        port: 5555,
    };
    let mut bridge = TowerHttp::service();
    let translated = bridge.begin_call(get_root_request(peer));
    assert_eq!(translated.connect_info(), Some(peer));

    let inner = InnerResponse {
        head: ResponseHead {
            status: 200,
            headers: vec![HeaderField {
                name: b"content-type".to_vec(),
                value: b"text/plain; charset=utf-8".to_vec(),
            }],
        },
        body: InnerBodyHandle { id: 2 },
    };
    let out = bridge.on_inner_result(Ok(inner)).expect("the call must succeed");
    assert_eq!(out.head.status, 200);
    assert_eq!(out.head.headers.len(), 1);
    assert_eq!(out.head.headers[0].name, b"content-type".to_vec());
    assert_eq!(
        out.head.headers[0].value,
        b"text/plain; charset=utf-8".to_vec()
    );
    assert_eq!(out.body.source, InnerBodyHandle { id: 2 });

    // The inner body yields one chunk and then ends; the streaming body the
    // runtime polls must do exactly the same.
    let polls = vec![InnerPoll::Chunk(b"hello,world!".to_vec()), InnerPoll::End];
    let mut chunks: Vec<Vec<u8>> = Vec::new();
    let mut ended = false;
    for p in polls {
        match response_poll_next(p) {
            SourcePoll::Chunk(c) => {
                assert!(!ended);
                chunks.push(c);
            }
            SourcePoll::End => ended = true,
            _ => panic!("nothing else was produced"),
        }
    }
    assert_eq!(chunks, vec![b"hello,world!".to_vec()]);
    assert!(ended);
}

#[test]
fn inner_error_resolves_call_to_that_exact_error() {
    let peer = PeerAddr {
        ip: PeerIp::V4(10, 0, 0, 2),
        port: 4242,
    };
    let mut bridge = TowerHttp::service();
    let _ = bridge.begin_call(get_root_request(peer));
    let out = bridge.on_inner_result(Err(SvcError { token: 42 }));
    match out {
        Err(e) => assert_eq!(e, SvcError { token: 42 }),
        Ok(_) => panic!("no response may be constructed around an inner error"),
    }
}

#[test]
fn calls_are_serialized_per_connection() {
    // One bridge instance serves the whole connection; after one call fully
    // resolves, the next may begin — and a fresh bridge starts idle.
    let peer = PeerAddr {
        ip: PeerIp::V4(192, 168, 0, 1),
        port: 80,
    };
    let mut bridge = TowerHttp::service();
    assert_eq!(bridge.state, CallState::Idle);
    let _ = bridge.begin_call(get_root_request(peer));
    assert_eq!(bridge.state, CallState::AwaitingInner);
    let _ = bridge.on_inner_result(Err(SvcError { token: 1 }));
    assert_eq!(bridge.state, CallState::Idle);
    let _ = bridge.begin_call(get_root_request(peer));
    assert_eq!(bridge.state, CallState::AwaitingInner);
}

#[test]
fn cancelled_call_leaves_bridge_idle() {
    // The call future is dropped before the inner future resolves: nothing
    // is delivered downstream and the bridge serves the next call.
    let peer = PeerAddr {
        ip: PeerIp::V4(127, 0, 0, 1),
        port: 5555,
    };
    let mut bridge = TowerHttp::service();
    let _ = bridge.begin_call(get_root_request(peer));
    bridge.on_cancelled();
    assert_eq!(bridge.state, CallState::Idle);
    let translated = bridge.begin_call(get_root_request(peer));
    assert_eq!(translated.connect_info(), Some(peer));
}
