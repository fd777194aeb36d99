use std::collections::HashMap;

use gatt::database::{FindInformation, Read, ReadByGroupType, ReadByType, Write};
use gatt::handler::{
    complete_write, find_information_response, read_by_group_type_response,
    read_by_type_response, read_response, write_response, WriteCompletion, WriteKind, WritePlan,
};
use gatt::packet::{
    ErrorCode, ErrorResponse, ExchangeMtuRequest, ExchangeMtuResponse, FindInformationRequest,
    FindInformationResponse, ReadByGroupTypeRequest, ReadByGroupTypeResponse, ReadByTypeRequest,
    ReadByTypeResponse, ReadRequest, ReadResponse, SignedWriteCommand, Uuid, WriteCommand,
    WriteRequest, WriteResponse,
};
use gatt::{Event, GattHandler};
use tokio::sync::mpsc::error::TryRecvError;
use tokio::sync::mpsc::UnboundedReceiver;

fn target_handler() -> (GattHandler<&'static str>, UnboundedReceiver<Event<&'static str>>) {
    let mut write_tokens = HashMap::new();
    write_tokens.insert(0x0010, "target");
    write_tokens.insert(0x0020, "other");
    GattHandler::with_events(write_tokens)
}

#[test]
fn write_request_to_registered_handle_raises_event_and_is_acknowledged() {
    let (handler, mut events) = target_handler();
    let item = WriteRequest { attribute_handle: 0x0010, attribute_value: vec![0x16] };

    let plan = handler.handle_write_request(&item);
    assert_eq!(plan.event, Some(Event::Write("target", vec![0x16])));
    assert_eq!(
        plan.operation,
        Write { handle: 0x0010, value: vec![0x16], authenticated: false, signed: false }
    );

    assert!(handler.deliver(plan.event));
    assert_eq!(events.try_recv(), Ok(Event::Write("target", vec![0x16])));
    assert_eq!(events.try_recv(), Err(TryRecvError::Empty));

    assert_eq!(write_response(Ok(())), Ok(WriteResponse {}));
}

#[test]
fn write_request_raises_its_event_even_when_the_write_fails() {
    let (handler, mut events) = target_handler();
    let item = WriteRequest { attribute_handle: 0x0020, attribute_value: vec![1, 2, 3] };

    let plan = handler.handle_write_request(&item);
    assert!(handler.deliver(plan.event));
    let response = write_response(Err((0x0020, ErrorCode::WriteNotPermitted)));

    assert_eq!(events.try_recv(), Ok(Event::Write("other", vec![1, 2, 3])));
    assert_eq!(
        response,
        Err(ErrorResponse { handle: 0x0020, code: ErrorCode::WriteNotPermitted })
    );
}

#[test]
fn write_to_unregistered_handle_raises_no_event() {
    let (handler, mut events) = target_handler();

    let request = handler
        .handle_write_request(&WriteRequest { attribute_handle: 0x0011, attribute_value: vec![9] });
    let command = handler
        .handle_write_command(&WriteCommand { attribute_handle: 0x0011, attribute_value: vec![9] });
    let signed = handler.handle_signed_write_command(&SignedWriteCommand {
        attribute_handle: 0x0011,
        attribute_value: vec![9],
        authentication_signature: vec![0; 12],
    });

    assert_eq!(request.event, None);
    assert_eq!(command.event, None);
    assert_eq!(signed.event, None);
    assert_eq!(request.operation.handle, 0x0011);
    assert!(!handler.deliver(request.event));
    assert!(!handler.deliver(command.event));
    assert!(!handler.deliver(signed.event));
    assert_eq!(events.try_recv(), Err(TryRecvError::Empty));
}

#[test]
fn write_command_raises_event_and_is_not_signed() {
    let (handler, mut events) = target_handler();
    let item = WriteCommand { attribute_handle: 0x0010, attribute_value: vec![0xAA, 0xBB] };

    let plan = handler.handle_write_command(&item);
    assert_eq!(
        plan,
        WritePlan {
            event: Some(Event::Write("target", vec![0xAA, 0xBB])),
            operation: Write {
                handle: 0x0010,
                value: vec![0xAA, 0xBB],
                authenticated: false,
                signed: false,
            },
        }
    );
    assert!(handler.deliver(plan.event));
    assert_eq!(events.try_recv(), Ok(Event::Write("target", vec![0xAA, 0xBB])));
}

#[test]
fn signed_write_command_raises_event_and_is_signed() {
    let (handler, mut events) = target_handler();
    let item = SignedWriteCommand {
        attribute_handle: 0x0010,
        attribute_value: vec![7],
        authentication_signature: vec![1; 12],
    };

    let plan = handler.handle_signed_write_command(&item);
    assert_eq!(
        plan,
        WritePlan {
            event: Some(Event::Write("target", vec![7])),
            operation: Write { handle: 0x0010, value: vec![7], authenticated: false, signed: true },
        }
    );
    assert!(handler.deliver(plan.event));
    assert_eq!(events.try_recv(), Ok(Event::Write("target", vec![7])));
}

#[test]
fn plan_write_agrees_with_the_three_handlers() {
    let (handler, _events) = target_handler();
    let value = vec![4, 5];

    let request = handler
        .handle_write_request(&WriteRequest { attribute_handle: 0x0020, attribute_value: value.clone() });
    assert_eq!(handler.plan_write(WriteKind::Request, 0x0020, &value), request);
    let command = handler
        .handle_write_command(&WriteCommand { attribute_handle: 0x0020, attribute_value: value.clone() });
    assert_eq!(handler.plan_write(WriteKind::Command, 0x0020, &value), command);
    assert_eq!(handler.plan_write(WriteKind::SignedCommand, 0x0020, &value).operation.signed, true);
    assert_eq!(handler.write_event(0x0020, &value), Some(Event::Write("other", vec![4, 5])));
    assert_eq!(handler.write_event(0x0021, &value), None);
}

#[test]
fn write_with_empty_value_carries_empty_payload() {
    let (handler, _events) = target_handler();
    let plan = handler
        .handle_write_request(&WriteRequest { attribute_handle: 0x0010, attribute_value: vec![] });
    assert_eq!(plan.event, Some(Event::Write("target", vec![])));
    assert_eq!(plan.operation.value, Vec::<u8>::new());
}

#[test]
fn events_arrive_in_the_order_of_the_writes() {
    let (handler, mut events) = target_handler();
    for (handle, byte) in [(0x0010u16, 1u8), (0x0020, 2), (0x0010, 3)] {
        let plan = handler
            .handle_write_command(&WriteCommand { attribute_handle: handle, attribute_value: vec![byte] });
        assert!(handler.deliver(plan.event));
    }
    assert_eq!(events.try_recv(), Ok(Event::Write("target", vec![1])));
    assert_eq!(events.try_recv(), Ok(Event::Write("other", vec![2])));
    assert_eq!(events.try_recv(), Ok(Event::Write("target", vec![3])));
    assert_eq!(events.try_recv(), Err(TryRecvError::Empty));
}

#[test]
fn delivery_to_an_application_that_has_gone_is_refused_quietly() {
    let (handler, events) = target_handler();
    drop(events);
    let plan = handler
        .handle_write_request(&WriteRequest { attribute_handle: 0x0010, attribute_value: vec![1] });
    assert_eq!(plan.event, Some(Event::Write("target", vec![1])));
    assert!(!handler.deliver(plan.event));
    assert_eq!(write_response(Ok(())), Ok(WriteResponse {}));
}

#[test]
fn events_end_when_the_handler_is_dropped() {
    let (handler, mut events) = target_handler();
    let plan = handler
        .handle_write_request(&WriteRequest { attribute_handle: 0x0010, attribute_value: vec![1] });
    handler.deliver(plan.event);
    drop(handler);
    assert_eq!(events.try_recv(), Ok(Event::Write("target", vec![1])));
    assert_eq!(events.try_recv(), Err(TryRecvError::Disconnected));
}

#[test]
fn handler_made_with_new_uses_the_given_channel() {
    let (events_tx, mut events) = tokio::sync::mpsc::unbounded_channel();
    let mut write_tokens = HashMap::new();
    write_tokens.insert(0x0003u16, String::from("heart"));
    let handler = GattHandler::new(write_tokens, events_tx);
    let plan = handler
        .handle_write_request(&WriteRequest { attribute_handle: 0x0003, attribute_value: vec![0x40] });
    assert!(handler.deliver(plan.event));
    assert_eq!(events.try_recv(), Ok(Event::Write(String::from("heart"), vec![0x40])));
}

#[test]
fn exchange_mtu_echoes_the_client_value() {
    let (handler, _events) = target_handler();
    for mtu in [0u16, 23, 185, 517, u16::MAX] {
        assert_eq!(
            handler.handle_exchange_mtu_request(&ExchangeMtuRequest { client_rx_mtu: mtu }),
            Ok(ExchangeMtuResponse { server_rx_mtu: mtu })
        );
    }
}

#[test]
fn read_requests_ask_without_authentication_or_authorization() {
    let (handler, _events) = target_handler();
    assert_eq!(
        handler.handle_find_information_request(&FindInformationRequest {
            starting_handle: 0x0001,
            ending_handle: 0xFFFF,
        }),
        FindInformation { start: 0x0001, end: 0xFFFF }
    );
    assert_eq!(
        handler.handle_read_by_type_request(&ReadByTypeRequest {
            starting_handle: 0x0001,
            ending_handle: 0x000B,
            attribute_type: Uuid::Uuid16(0x2803),
        }),
        ReadByType {
            start: 0x0001,
            end: 0x000B,
            attribute_type: Uuid::Uuid16(0x2803),
            authenticated: false,
            authorized: false,
        }
    );
    assert_eq!(
        handler.handle_read_request(&ReadRequest { attribute_handle: 0x0003 }),
        Read { handle: 0x0003, authenticated: false, authorized: false }
    );
    assert_eq!(
        handler.handle_read_by_group_type_request(&ReadByGroupTypeRequest {
            starting_handle: 0x000C,
            ending_handle: 0xFFFF,
            attribute_group_type: Uuid::Uuid128(0x0000_2800_0000_1000_8000_0080_5F9B_34FB),
        }),
        ReadByGroupType {
            start: 0x000C,
            end: 0xFFFF,
            attribute_group_type: Uuid::Uuid128(0x0000_2800_0000_1000_8000_0080_5F9B_34FB),
            authenticated: false,
            authorized: false,
        }
    );
}

#[test]
fn successful_outcomes_become_responses() {
    assert_eq!(
        find_information_response(Ok(vec![(1, Uuid::Uuid16(0x2800)), (2, Uuid::Uuid16(0x2803))])),
        Ok(FindInformationResponse {
            values: vec![(1, Uuid::Uuid16(0x2800)), (2, Uuid::Uuid16(0x2803))],
        })
    );
    assert_eq!(
        read_by_type_response(Ok(vec![(2, vec![0x02, 0x03, 0x00, 0x00, 0x2A])])),
        Ok(ReadByTypeResponse { values: vec![(2, vec![0x02, 0x03, 0x00, 0x00, 0x2A])] })
    );
    assert_eq!(read_response(Ok(vec![0x5A])), Ok(ReadResponse { attribute_value: vec![0x5A] }));
    assert_eq!(read_response(Ok(vec![])), Ok(ReadResponse { attribute_value: vec![] }));
    assert_eq!(
        read_by_group_type_response(Ok(vec![(1, 0x0B, vec![0x00, 0x18]), (0x0C, 0x0F, vec![0x01, 0x18])])),
        Ok(ReadByGroupTypeResponse {
            values: vec![(1, 0x0B, vec![0x00, 0x18]), (0x0C, 0x0F, vec![0x01, 0x18])],
        })
    );
    assert_eq!(find_information_response(Ok(vec![])), Ok(FindInformationResponse { values: vec![] }));
}

#[test]
fn failed_outcomes_go_back_with_the_same_handle_and_code() {
    assert_eq!(
        find_information_response(Err((0x0001, ErrorCode::AttributeNotFound))),
        Err(ErrorResponse { handle: 0x0001, code: ErrorCode::AttributeNotFound })
    );
    assert_eq!(
        read_by_type_response(Err((0x0002, ErrorCode::ReadNotPermitted))),
        Err(ErrorResponse { handle: 0x0002, code: ErrorCode::ReadNotPermitted })
    );
    assert_eq!(
        read_response(Err((0x0003, ErrorCode::InvalidHandle))),
        Err(ErrorResponse { handle: 0x0003, code: ErrorCode::InvalidHandle })
    );
    assert_eq!(
        read_by_group_type_response(Err((0x0004, ErrorCode::UnsupportedGroupType))),
        Err(ErrorResponse { handle: 0x0004, code: ErrorCode::UnsupportedGroupType })
    );
    assert_eq!(
        write_response(Err((0x0005, ErrorCode::ApplicationError(0x80)))),
        Err(ErrorResponse { handle: 0x0005, code: ErrorCode::ApplicationError(0x80) })
    );
    assert_eq!(
        ErrorResponse::new(0x0006, ErrorCode::ReservedForFutureUse(0x42)),
        ErrorResponse { handle: 0x0006, code: ErrorCode::ReservedForFutureUse(0x42) }
    );
}

#[test]
fn a_request_is_answered_and_leaves_nothing_for_the_log() {
    assert_eq!(
        complete_write(WriteKind::Request, Ok(())),
        WriteCompletion { response: Some(Ok(WriteResponse {})), unreported: None }
    );
    assert_eq!(
        complete_write(WriteKind::Request, Err((0x0010, ErrorCode::WriteNotPermitted))),
        WriteCompletion {
            response: Some(Err(ErrorResponse {
                handle: 0x0010,
                code: ErrorCode::WriteNotPermitted,
            })),
            unreported: None,
        }
    );
}

#[test]
fn a_command_is_never_answered() {
    for kind in [WriteKind::Command, WriteKind::SignedCommand] {
        assert_eq!(
            complete_write(kind, Ok(())),
            WriteCompletion { response: None, unreported: None }
        );
        assert_eq!(
            complete_write(kind, Err((0x0010, ErrorCode::InsufficientAuthentication))),
            WriteCompletion {
                response: None,
                unreported: Some((0x0010, ErrorCode::InsufficientAuthentication)),
            }
        );
    }
}

#[test]
fn announce_delivers_the_event_and_hands_out_the_operation() {
    let (handler, mut events) = target_handler();
    let plan = handler.handle_signed_write_command(&SignedWriteCommand {
        attribute_handle: 0x0020,
        attribute_value: vec![0x0A, 0x0B],
        authentication_signature: vec![2; 12],
    });

    let operation = handler.announce(plan);

    assert_eq!(events.try_recv(), Ok(Event::Write("other", vec![0x0A, 0x0B])));
    assert_eq!(events.try_recv(), Err(TryRecvError::Empty));
    assert_eq!(
        operation,
        Write { handle: 0x0020, value: vec![0x0A, 0x0B], authenticated: false, signed: true }
    );
}

#[test]
fn announce_without_an_event_hands_out_the_operation_alone() {
    let (handler, mut events) = target_handler();
    let plan = handler
        .handle_write_command(&WriteCommand { attribute_handle: 0x0099, attribute_value: vec![1] });

    let operation = handler.announce(plan);

    assert_eq!(events.try_recv(), Err(TryRecvError::Empty));
    assert_eq!(
        operation,
        Write { handle: 0x0099, value: vec![1], authenticated: false, signed: false }
    );
}
