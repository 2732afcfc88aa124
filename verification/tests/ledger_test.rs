use cafeteria::compartido::mensajes_cafetera::{
    Conectar, Desconectar, Error, MensajeCafetera, MensajeCafeteraBytes, OkeyToCafetera, Ping,
    Restar, Sumar,
};
use cafeteria::server::bully_listener::{
    AccionBully, BullyListener, BullyState, EntradaBully, SetState, StartElection,
};
use cafeteria::server::coordinador::{
    AccionCoordinador, Coordinador, DisconnectNodo, Entrada, RegistroCoordinador,
    TransactionState as EstadoEnLider,
};
use cafeteria::server::mensaje::{
    Abort, CommitType, Finish, MensajeBytes, OkeyToCoordinator, Starter, Yes,
};
use cafeteria::server::nodo::{
    es_linea_bien_formada, es_trama_bien_formada, id_transaccion, AccionNodo, Direccion,
    MensajeNodo, Nodo,
    ReceiveFromCafetera, ReceiveNewCoordinator, RegistroNodo, RespuestaCafetera, TransactionState,
};
use cafeteria::server::nodo_handler::NodoHandler;
use cafeteria::server::utils::SALDO_INICIAL;
use std::collections::VecDeque;

enum Evento {
    /// A datagram of a machine for the node.
    DeCafetera { nodo: u8, bytes: Vec<u8>, socket: Direccion },
    /// A line of the node for the leader.
    AlLider { de: u8, linea: String },
    /// A line of the leader for the node.
    AlNodo { a: u8, linea: String },
    /// An election datagram for the node.
    Bully { a: u8, bytes: Vec<u8> },
    /// The stream of the node to the leader has ended.
    Fin { nodo: u8 },
}

/// Three nodes, their election listeners, the coordinator of the leader
/// and the streams between them, with every message delivered in the order
/// it was sent.
struct Red {
    nodos: Vec<Nodo>,
    bullies: Vec<BullyListener>,
    vivos: Vec<bool>,
    lider: u8,
    coord: Coordinador,
    handlers: Vec<Option<NodoHandler>>,
    cola: VecDeque<Evento>,
    /// What the machines got: node, endpoint, kind of frame.
    buzon: Vec<(u8, Direccion, u8)>,
    /// Waits started by the election listeners: node, number.
    esperas: Vec<(u8, u32)>,
    /// Lines that reached the leader, for the tests to look at.
    al_lider: Vec<String>,
}

impl Red {
    fn new(lider: u8) -> Red {
        let mut coord = Coordinador::new();
        let mut handlers = Vec::new();
        for id in 1..=3u8 {
            coord.add_nodo(id);
            handlers.push(Some(NodoHandler::new(id)));
        }
        Red {
            nodos: (1..=3u8).map(|id| Nodo::new(id, lider)).collect(),
            bullies: (1..=3u8).map(BullyListener::new).collect(),
            vivos: vec![true; 3],
            lider,
            coord,
            handlers,
            cola: VecDeque::new(),
            buzon: Vec::new(),
            esperas: Vec::new(),
            al_lider: Vec::new(),
        }
    }

    fn nodo(&mut self, id: u8) -> &mut Nodo {
        &mut self.nodos[id as usize - 1]
    }

    fn saldo(&self, nodo: u8, cuenta: u32) -> Option<u32> {
        self.nodos[nodo as usize - 1].cuenta(cuenta).map(|c| c.saldo)
    }

    fn de_cafetera(&mut self, nodo: u8, bytes: Vec<u8>, socket: Direccion) {
        self.cola.push_back(Evento::DeCafetera { nodo, bytes, socket });
        self.entregar();
    }

    fn hacer(&mut self, nodo: u8, acciones: Vec<AccionNodo>) {
        for a in acciones {
            match a {
                AccionNodo::Cafetera { mensaje, socket } => {
                    let bytes = mensaje.to_bytes();
                    self.buzon.push((nodo, socket, bytes[0]));
                }
                AccionNodo::Coordinador(registro) => {
                    self.cola.push_back(Evento::AlLider { de: nodo, linea: registro.to_string() });
                }
                AccionNodo::StartElection => {
                    let acciones =
                        self.bullies[nodo as usize - 1].handle(EntradaBully::StartElection(StartElection));
                    self.hacer_bully(nodo, acciones);
                }
                AccionNodo::SetState { estado } => {
                    let acciones =
                        self.bullies[nodo as usize - 1].handle(EntradaBully::SetState(SetState { estado }));
                    self.hacer_bully(nodo, acciones);
                }
                AccionNodo::Shutdown => {
                    self.cola.push_back(Evento::Fin { nodo });
                }
                AccionNodo::Conectar { id_coordinador } => {
                    if self.lider != id_coordinador {
                        self.lider = id_coordinador;
                        self.coord = Coordinador::new();
                        self.handlers = vec![None, None, None];
                    }
                    self.coord.add_nodo(nodo);
                    self.handlers[nodo as usize - 1] = Some(NodoHandler::new(nodo));
                }
            }
        }
    }

    fn hacer_bully(&mut self, nodo: u8, acciones: Vec<AccionBully>) {
        for a in acciones {
            match a {
                AccionBully::Enviar { id_nodo, mensaje } => {
                    self.cola.push_back(Evento::Bully { a: id_nodo, bytes: mensaje.to_bytes() });
                }
                AccionBully::Notificar(m) => {
                    let acciones = self.nodo(nodo).handle(MensajeNodo::Coordinador(m));
                    self.hacer(nodo, acciones);
                }
                AccionBully::Esperar { turno } => self.esperas.push((nodo, turno)),
            }
        }
    }

    fn hacer_lider(&mut self, acciones: Vec<AccionCoordinador>) {
        for a in acciones {
            match a {
                AccionCoordinador::Enviar { id_nodo, registro } => {
                    self.cola.push_back(Evento::AlNodo { a: id_nodo, linea: registro.to_string() });
                }
                AccionCoordinador::Shutdown { id_nodo } => {
                    self.cola.push_back(Evento::Fin { nodo: id_nodo });
                }
            }
        }
    }

    fn entregar(&mut self) {
        while let Some(e) = self.cola.pop_front() {
            self.entregar_uno(e);
        }
    }

    fn entregar_uno(&mut self, e: Evento) {
        match e {
            Evento::DeCafetera { nodo, bytes, socket } => {
                if !self.vivos[nodo as usize - 1] {
                    return;
                }
                assert!(es_trama_bien_formada(&bytes));
                let acciones = self.nodo(nodo).handle(MensajeNodo::Cafetera(ReceiveFromCafetera { msg: bytes, socket }));
                self.hacer(nodo, acciones);
            }
            Evento::AlLider { de, linea } => {
                if !self.vivos[self.lider as usize - 1] {
                    // The write fails: the leader is gone.
                    self.cola.push_back(Evento::Fin { nodo: de });
                    return;
                }
                let handler = match self.handlers[de as usize - 1].as_mut() {
                    Some(h) => h,
                    None => return,
                };
                assert!(cafeteria::server::nodo_handler::es_linea_bien_formada(&linea));
                self.al_lider.push(linea.clone());
                let entrada = handler.handle(linea);
                let acciones = self.coord.handle(entrada);
                self.hacer_lider(acciones);
            }
            Evento::AlNodo { a, linea } => {
                if !self.vivos[a as usize - 1] || self.handlers[a as usize - 1].is_none() {
                    return;
                }
                assert!(es_linea_bien_formada(&linea));
                let acciones = self.nodo(a).handle(MensajeNodo::Linea(linea));
                self.hacer(a, acciones);
            }
            Evento::Bully { a, bytes } => {
                if !self.vivos[a as usize - 1] {
                    return;
                }
                assert!(cafeteria::server::bully_listener::es_trama_bien_formada(&bytes));
                let acciones = self.bullies[a as usize - 1].handle(EntradaBully::Trama(bytes));
                self.hacer_bully(a, acciones);
            }
            Evento::Fin { nodo } => {
                if let Some(h) = self.handlers[nodo as usize - 1].take() {
                    if self.vivos[self.lider as usize - 1] {
                        if let Some(m) = h.finished() {
                            let acciones = self.coord.handle(Entrada::DisconnectNodo(m));
                            self.hacer_lider(acciones);
                        }
                    }
                }
                if self.vivos[nodo as usize - 1] {
                    let acciones = self.nodo(nodo).handle(MensajeNodo::Fin);
                    self.hacer(nodo, acciones);
                }
            }
        }
    }

    /// Lets the latest wait of the node run out.
    fn vencer(&mut self, nodo: u8) {
        let turno = self.esperas.iter().rev().find(|(n, _)| *n == nodo).unwrap().1;
        let acciones = self.bullies[nodo as usize - 1].handle(EntradaBully::Timeout { turno });
        self.hacer_bully(nodo, acciones);
        self.entregar();
    }

    fn recibidos(&self, nodo: u8, socket: Direccion) -> Vec<u8> {
        self.buzon.iter().filter(|(n, s, _)| *n == nodo && *s == socket).map(|(_, _, k)| *k).collect()
    }
}

fn maquina(n: u16) -> Direccion {
    Direccion { ip: 0x7f00_0001, puerto: 5700 + n }
}

const OKEY: u8 = 3;
const ERROR: u8 = 4;

#[test]
fn a_deduction_reaches_every_replica() {
    let mut red = Red::new(3);
    let m = maquina(20);
    red.de_cafetera(2, Restar::new(0, 1, 500).to_bytes(), m);
    // Every node has answered the call to prepare: the machine may go on.
    assert_eq!(red.recibidos(2, m), vec![OKEY]);
    for n in 1..=3 {
        assert_eq!(red.saldo(n, 1), Some(10000));
        assert!(red.nodos[n as usize - 1].cuenta(1).unwrap().blocked);
    }
    let id = id_transaccion(2, 0, 1).unwrap();
    assert_eq!(id, 201);
    assert_eq!(red.coord.estado_de(id), Some(EstadoEnLider::Execute));
    assert_eq!(red.nodo(2).transaccion_resta(id).unwrap().state, TransactionState::Locked);
    // The drink is prepared.
    red.de_cafetera(2, OkeyToCafetera::new(0, 1, 500).to_bytes(), m);
    for n in 1..=3 {
        assert_eq!(red.saldo(n, 1), Some(9500));
        assert!(!red.nodos[n as usize - 1].cuenta(1).unwrap().blocked);
    }
    assert_eq!(red.recibidos(2, m), vec![OKEY, OKEY]);
    assert_eq!(red.coord.estado_de(id), Some(EstadoEnLider::Done));
    assert_eq!(red.coord.largo_cola(1), 0);
    assert_eq!(red.nodo(2).transaccion_resta(id).unwrap().state, TransactionState::Accepted);
}

#[test]
fn of_two_deductions_that_the_balance_cannot_both_bear_one_commits() {
    let mut red = Red::new(3);
    let (a, b) = (maquina(20), maquina(30));
    // Both requests arrive before any machine has prepared its drink.
    red.de_cafetera(2, Restar::new(0, 1, 8000).to_bytes(), a);
    red.de_cafetera(3, Restar::new(0, 1, 8000).to_bytes(), b);
    let (primera, segunda) = (id_transaccion(2, 0, 1).unwrap(), id_transaccion(3, 0, 1).unwrap());
    assert_eq!(red.coord.estado_de(primera), Some(EstadoEnLider::Execute));
    assert_eq!(red.coord.estado_de(segunda), Some(EstadoEnLider::Uninitialized));
    assert_eq!(red.coord.largo_cola(1), 2);
    assert_eq!(red.recibidos(3, b), vec![]);
    // The first machine prepares its drink: the first deduction commits,
    // and only then the second is looked at, against the new balance.
    red.de_cafetera(2, OkeyToCafetera::new(0, 1, 8000).to_bytes(), a);
    assert_eq!(red.recibidos(2, a), vec![OKEY, OKEY]);
    assert_eq!(red.recibidos(3, b), vec![ERROR]);
    assert_eq!(red.coord.estado_de(primera), Some(EstadoEnLider::Done));
    assert_eq!(red.coord.estado_de(segunda), Some(EstadoEnLider::Abort));
    assert_eq!(red.coord.largo_cola(1), 0);
    assert_eq!(red.nodo(3).transaccion_resta(segunda).unwrap().state, TransactionState::Abort);
    for n in 1..=3 {
        assert_eq!(red.saldo(n, 1), Some(2000));
        assert!(!red.nodos[n as usize - 1].cuenta(1).unwrap().blocked);
    }
}

#[test]
fn the_highest_node_alive_takes_over_and_deductions_go_on() {
    let mut red = Red::new(3);
    red.vivos[2] = false;
    // The streams to the dead leader end.
    red.cola.push_back(Evento::Fin { nodo: 1 });
    red.cola.push_back(Evento::Fin { nodo: 2 });
    red.entregar();
    assert!(!red.nodo(1).conectado());
    // Node 1 was answered by node 2; node 2 by nobody.
    assert_eq!(red.bullies[0].estado(), BullyState::WaitingCoordinator);
    assert_eq!(red.bullies[1].estado(), BullyState::WaitingOkey);
    red.vencer(2);
    assert!(red.bullies[1].soy_coordinador());
    assert!(!red.bullies[0].soy_coordinador());
    assert_eq!(red.bullies[0].estado(), BullyState::NotExecuting);
    assert_eq!(red.lider, 2);
    assert_eq!(red.nodo(1).id_coordinador(), 2);
    assert_eq!(red.nodo(2).id_coordinador(), 2);
    assert!(red.nodo(1).conectado());
    assert_eq!(red.coord.cantidad_nodos(), 2);
    // A late wait of node 1 changes nothing.
    red.vencer(1);
    assert!(!red.bullies[0].soy_coordinador());

    let m = maquina(10);
    red.de_cafetera(1, Restar::new(1, 4, 700).to_bytes(), m);
    red.de_cafetera(1, OkeyToCafetera::new(1, 4, 700).to_bytes(), m);
    assert_eq!(red.recibidos(1, m), vec![OKEY, OKEY]);
    assert_eq!(red.saldo(1, 4), Some(9300));
    assert_eq!(red.saldo(2, 4), Some(9300));
    assert_eq!(red.saldo(3, 4), None);
}

#[test]
fn the_deduction_of_a_follower_that_goes_is_called_off() {
    let mut red = Red::new(3);
    let m = maquina(20);
    // The request of node 2 gets as far as the call to prepare at node 1.
    red.cola.push_back(Evento::DeCafetera {
        nodo: 2,
        bytes: Restar::new(0, 1, 500).to_bytes(),
        socket: m,
    });
    for _ in 0..3 {
        let e = red.cola.pop_front().unwrap();
        red.entregar_uno(e);
    }
    let id = id_transaccion(2, 0, 1).unwrap();
    assert_eq!(red.coord.estado_de(id), Some(EstadoEnLider::Wait));
    assert!(red.nodo(1).cuenta(1).unwrap().blocked);
    // Node 2 is cut off.
    red.cola.clear();
    red.de_cafetera(2, Desconectar::new(0, 0, 0).to_bytes(), m);
    assert_eq!(red.coord.estado_de(id), Some(EstadoEnLider::Abort));
    assert_eq!(red.coord.cantidad_nodos(), 2);
    assert_eq!(red.coord.largo_cola(1), 0);
    assert!(!red.nodo(1).cuenta(1).unwrap().blocked);
    assert!(!red.nodo(3).cuenta(1).unwrap().blocked);
    assert_eq!(red.saldo(1, 1), Some(10000));
    // Its machine is told, and further deductions are refused.
    assert_eq!(red.nodo(2).transaccion_resta(id).unwrap().state, TransactionState::Abort);
    assert_eq!(red.recibidos(2, m), vec![ERROR]);
    assert!(!red.nodo(2).conectado());
    red.de_cafetera(2, Restar::new(0, 1, 5).to_bytes(), m);
    assert_eq!(red.recibidos(2, m), vec![ERROR, ERROR]);
}

#[test]
fn a_credit_is_acknowledged_at_once_and_committed_everywhere() {
    let mut red = Red::new(3);
    let m = maquina(10);
    red.de_cafetera(1, Sumar::new(2, 7, 300).to_bytes(), m);
    assert_eq!(red.recibidos(1, m), vec![OKEY]);
    assert!(red.al_lider.is_empty());
    assert_eq!(red.saldo(1, 7), Some(10000));
    let id = id_transaccion(1, 2, 1).unwrap();
    assert_eq!(id, 121);
    assert_eq!(red.nodo(1).transaccion_suma(id).unwrap().state, TransactionState::Wait);
    red.de_cafetera(1, OkeyToCafetera::new(2, 7, 300).to_bytes(), m);
    assert_eq!(red.al_lider[0], "4-1-7-121-0-300-2");
    for n in 1..=3 {
        assert_eq!(red.saldo(n, 7), Some(10300));
    }
    assert_eq!(red.nodo(1).transaccion_suma(id).unwrap().state, TransactionState::Accepted);
    assert_eq!(red.coord.estado_de(id), Some(EstadoEnLider::Done));
    // A credit earns no second acknowledgement.
    assert_eq!(red.recibidos(1, m), vec![OKEY]);
}

#[test]
fn a_credit_taken_without_a_leader_is_sent_once_a_leader_is_found() {
    let mut red = Red::new(3);
    let m = maquina(10);
    red.de_cafetera(1, Sumar::new(0, 7, 300).to_bytes(), m);
    red.de_cafetera(1, Desconectar::new(0, 0, 0).to_bytes(), m);
    assert!(!red.nodo(1).conectado());
    red.de_cafetera(1, OkeyToCafetera::new(0, 7, 300).to_bytes(), m);
    let id = id_transaccion(1, 0, 1).unwrap();
    assert_eq!(red.nodo(1).transaccion_suma(id).unwrap().state, TransactionState::ToSend);
    assert_eq!(red.saldo(2, 7), None);
    // Back on the network: node 1 asks who leads, and node 3 answers.
    red.bullies[2].coordinator(cafeteria::server::bully_messages::MensajeBullyBytes::new(3));
    red.de_cafetera(1, Conectar::new(0, 0, 0).to_bytes(), m);
    assert_eq!(red.nodo(1).id_coordinador(), 3);
    for n in 1..=3 {
        assert_eq!(red.saldo(n, 7), Some(10300));
    }
    assert_eq!(red.nodo(1).transaccion_suma(id).unwrap().state, TransactionState::Accepted);
}

#[test]
fn a_failed_drink_calls_the_deduction_off() {
    let mut red = Red::new(3);
    let m = maquina(20);
    red.de_cafetera(2, Restar::new(0, 1, 500).to_bytes(), m);
    red.de_cafetera(2, Error::new(0, 1, 0).to_bytes(), m);
    let id = id_transaccion(2, 0, 1).unwrap();
    assert_eq!(red.coord.estado_de(id), Some(EstadoEnLider::Abort));
    for n in 1..=3 {
        assert_eq!(red.saldo(n, 1), Some(10000));
        assert!(!red.nodos[n as usize - 1].cuenta(1).unwrap().blocked);
    }
    assert_eq!(red.recibidos(2, m), vec![OKEY]);
    assert_eq!(red.coord.largo_cola(1), 0);
}

#[test]
fn a_ping_of_a_machine_is_passed_on_to_the_leader() {
    let mut red = Red::new(3);
    red.de_cafetera(1, Ping::new(2, 9, 9).to_bytes(), maquina(1));
    assert_eq!(red.al_lider, vec!["8-1-0-0-2".to_string()]);
}

#[test]
fn the_leader_that_is_cut_off_drops_every_follower() {
    let mut red = Red::new(3);
    let m = maquina(30);
    red.de_cafetera(2, Restar::new(0, 1, 500).to_bytes(), maquina(20));
    red.de_cafetera(3, Desconectar::new(0, 0, 0).to_bytes(), m);
    assert!(!red.coord.conectado());
    assert_eq!(red.coord.cantidad_nodos(), 0);
    assert_eq!(red.coord.estado_de(201), None);
    for n in 1..=3 {
        assert!(!red.nodo(n).conectado());
    }
    assert!(!red.bullies[2].conectado());
    // The deduction that was under way at node 2 is called off there.
    assert_eq!(red.recibidos(2, maquina(20)), vec![OKEY, ERROR]);
}

#[test]
fn ids_of_transactions_are_node_machine_and_order_written_together() {
    assert_eq!(id_transaccion(1, 2, 3), Some(123));
    assert_eq!(id_transaccion(3, 0, 1), Some(301));
    assert_eq!(id_transaccion(12, 34, 567), Some(1234567));
    assert_eq!(id_transaccion(4, 2, 94967295), Some(4294967295));
    assert_eq!(id_transaccion(4, 2, 94967296), None);
    assert_eq!(id_transaccion(255, 255, 4294967295), None);
}

#[test]
fn a_request_that_cannot_be_numbered_is_refused() {
    let mut nodo = Nodo::new(200, 3);
    let m = maquina(1);
    let acciones = nodo.handle(MensajeNodo::Cafetera(ReceiveFromCafetera { msg: Sumar::new(200, 1, 5).to_bytes(), socket: m }));
    assert_eq!(id_transaccion(200, 200, 1), Some(2002001));
    assert!(matches!(
        acciones[0],
        AccionNodo::Cafetera { mensaje: RespuestaCafetera::Okey(_), .. }
    ));
    // 255, 255 and the order number do not fit together.
    let m = maquina(2);
    let mut nodo = Nodo::new(255, 3);
    let mut ultimo = Vec::new();
    for _ in 0..70_000 {
        ultimo = nodo.handle(MensajeNodo::Cafetera(ReceiveFromCafetera { msg: Restar::new(255, 1, 5).to_bytes(), socket: m }));
    }
    assert_eq!(id_transaccion(255, 255, 70_000), None);
    assert_eq!(ultimo.len(), 1);
    assert!(matches!(
        ultimo[0],
        AccionNodo::Cafetera { mensaje: RespuestaCafetera::Error(_), .. }
    ));
}

#[test]
fn balances_stop_at_zero_and_at_the_largest_balance() {
    let mut nodo = Nodo::new(1, 3);
    let commit = |tipo: CommitType, cantidad: u32| {
        cafeteria::server::mensaje::Commit::new(2, 5, 77, tipo, cantidad, 0).set_to_string()
    };
    nodo.handle_linea(commit(CommitType::RESTA, 10_001));
    assert_eq!(nodo.cuenta(5).unwrap().saldo, 0);
    nodo.handle_linea(commit(CommitType::SUMA, u32::MAX));
    nodo.handle_linea(commit(CommitType::SUMA, 1));
    assert_eq!(nodo.cuenta(5).unwrap().saldo, u32::MAX);
    nodo.handle_linea(commit(CommitType::UNKNOWN, 9));
    assert_eq!(nodo.cuenta(5).unwrap().saldo, u32::MAX);
    assert_eq!(nodo.cuenta(6).map(|c| c.saldo), None);
    assert_eq!(SALDO_INICIAL, 10000);
}

#[test]
fn the_clearance_of_an_unknown_deduction_is_answered_with_an_abort() {
    let mut nodo = Nodo::new(2, 3);
    let acciones = nodo.handle_linea("3-2-1-999-0".to_string());
    assert_eq!(acciones.len(), 1);
    match acciones[0] {
        AccionNodo::Coordinador(RegistroNodo::Abort(a)) => {
            assert_eq!((a.id_nodo, a.id_cuenta, a.id_transaccion, a.id_cafetera), (2, 1, 999, 0));
            assert_eq!(a.to_string(), "7-2-1-999-0");
        }
        _ => panic!("an abort was due"),
    }
}

#[test]
fn lines_of_other_kinds_are_ignored_by_a_node() {
    let mut nodo = Nodo::new(2, 3);
    for linea in ["", "x", "0-1-2-3-4", "2-1-1-1-1", "8-1-0-0-0", "10", "77-1-1-1-1", "-1-2"] {
        assert!(es_linea_bien_formada(linea), "{}", linea);
        assert!(nodo.handle_linea(linea.to_string()).is_empty(), "{}", linea);
    }
    for linea in ["1-1-1", "3-1-x-1-1", "5-1-1-1-1", "7-256-1-1-1", "1-1-1-4294967296-1"] {
        assert!(!es_linea_bien_formada(linea), "{}", linea);
    }
}

#[test]
fn frames_that_are_cut_short_cannot_be_read() {
    assert!(!es_trama_bien_formada(&vec![]));
    assert!(!es_trama_bien_formada(&vec![0, 1, 2]));
    assert!(!es_trama_bien_formada(&vec![3; 9]));
    assert!(es_trama_bien_formada(&vec![3; 10]));
    assert!(es_trama_bien_formada(&vec![5]));
    assert!(es_trama_bien_formada(&vec![6]));
    assert!(es_trama_bien_formada(&vec![200]));
    assert!(matches!(MensajeCafetera::from_bytes(7), MensajeCafetera::DESCONOCIDO));
    let mut nodo = Nodo::new(1, 1);
    assert!(nodo.handle(MensajeNodo::Cafetera(ReceiveFromCafetera { msg: vec![200], socket: maquina(1) })).is_empty());
}

#[test]
fn the_coordinator_keeps_deductions_on_one_account_in_line() {
    let mut c = Coordinador::new();
    c.add_nodo(1);
    c.add_nodo(2);
    let prepara = c.starter(Starter::new(1, 9, 111, 0));
    assert_eq!(prepara.len(), 2);
    assert!(c.starter(Starter::new(2, 9, 211, 0)).is_empty());
    // Another account does not wait.
    assert_eq!(c.starter(Starter::new(2, 8, 212, 0)).len(), 2);
    assert_eq!(c.estado_de(211), Some(EstadoEnLider::Uninitialized));
    assert_eq!(c.estado_de(212), Some(EstadoEnLider::Wait));
    assert_eq!((c.largo_cola(9), c.largo_cola(8)), (2, 1));
    // A repeated opening is ignored.
    assert!(c.starter(Starter::new(1, 9, 111, 0)).is_empty());
    assert_eq!(c.largo_cola(9), 2);
    // One vote is not enough; the same vote twice neither.
    assert!(c.yes(Yes::new(1, 9, 111, 0)).is_empty());
    assert!(c.yes(Yes::new(1, 9, 111, 0)).is_empty());
    let sigue = c.yes(Yes::new(2, 9, 111, 0));
    match sigue[..] {
        [AccionCoordinador::Enviar { id_nodo: 1, registro: RegistroCoordinador::Execute(e) }] => {
            assert_eq!(e.to_string(), "3-1-9-111-0");
        }
        _ => panic!("the node where the deduction started was to be told"),
    }
    // A completion for a deduction that was not told to go on is ignored.
    assert!(c.finish(Finish::new(2, 9, 211, CommitType::RESTA, 5, 0)).is_empty());
    let commit = c.finish(Finish::new(1, 9, 111, CommitType::RESTA, 5, 0));
    assert_eq!(commit.len(), 2);
    match commit[1] {
        AccionCoordinador::Enviar { id_nodo: 2, registro } => {
            assert_eq!(registro.to_string(), "5-1-9-111-1-5-0");
        }
        _ => panic!("a commit for node 2 was due"),
    }
    assert!(c.okey(OkeyToCoordinator::new(2, 9, 111, 0)).is_empty());
    // The last answer closes the deduction and starts the next in line.
    let siguiente = c.okey(OkeyToCoordinator::new(1, 9, 111, 0));
    assert_eq!(c.estado_de(111), Some(EstadoEnLider::Done));
    assert_eq!(c.estado_de(211), Some(EstadoEnLider::Wait));
    assert_eq!(c.largo_cola(9), 1);
    match siguiente[..] {
        [AccionCoordinador::Enviar { id_nodo: 1, registro: RegistroCoordinador::Prepare(p) }, AccionCoordinador::Enviar { id_nodo: 2, .. }] =>
        {
            assert_eq!(p.to_string(), "1-2-9-211-0");
        }
        _ => panic!("the next deduction was to be prepared"),
    }
}

#[test]
fn the_loss_of_a_follower_calls_off_what_it_started_and_nothing_else() {
    let mut c = Coordinador::new();
    for n in 1..=3 {
        c.add_nodo(n);
    }
    c.starter(Starter::new(2, 9, 211, 0));
    c.starter(Starter::new(2, 9, 212, 1));
    c.starter(Starter::new(1, 8, 111, 0));
    let acciones = c.disconnect_nodo(DisconnectNodo { id_nodo: 2 });
    // Two deductions called off, each with the two followers left.
    assert_eq!(acciones.len(), 4);
    let lineas: Vec<(u8, String)> = acciones
        .iter()
        .map(|a| match a {
            AccionCoordinador::Enviar { id_nodo, registro } => (*id_nodo, registro.to_string()),
            _ => panic!("aborts were due"),
        })
        .collect();
    assert_eq!(
        lineas,
        vec![
            (1, "7-2-9-211-0".to_string()),
            (3, "7-2-9-211-0".to_string()),
            (1, "7-2-9-212-1".to_string()),
            (3, "7-2-9-212-1".to_string()),
        ]
    );
    assert_eq!(c.estado_de(211), Some(EstadoEnLider::Abort));
    assert_eq!(c.estado_de(212), Some(EstadoEnLider::Abort));
    assert_eq!(c.estado_de(111), Some(EstadoEnLider::Wait));
    assert_eq!(c.cantidad_nodos(), 2);
    // Off the network the coordinator does nothing.
    c.set_state(cafeteria::server::coordinador::SetState { estado: false });
    assert!(c.handle(Entrada::Abort(Abort::new(1, 8, 111, 0))).is_empty());
    assert_eq!(c.estado_de(111), Some(EstadoEnLider::Wait));
}

#[test]
fn the_balance_is_the_opening_balance_plus_the_credits_less_the_deductions() {
    let mut nodo = Nodo::new(1, 3);
    let movimientos = [
        (CommitType::SUMA, 300u32),
        (CommitType::RESTA, 1200),
        (CommitType::RESTA, 9100),
        (CommitType::SUMA, 7),
        (CommitType::RESTA, 7),
    ];
    let mut esperado: i64 = 10000;
    for (k, (tipo, cantidad)) in movimientos.iter().enumerate() {
        let linea = cafeteria::server::mensaje::Commit::new(2, 42, 210 + k as u32, *tipo, *cantidad, 0)
            .set_to_string();
        nodo.handle_linea(linea);
        esperado += match tipo {
            CommitType::SUMA => *cantidad as i64,
            _ => -(*cantidad as i64),
        };
        assert_eq!(nodo.cuenta(42).unwrap().saldo as i64, esperado);
    }
    assert_eq!(nodo.cuenta(42).unwrap().saldo, 0);
    // Nothing but a commit moves a balance.
    nodo.handle_linea("1-2-42-999-0".to_string());
    nodo.handle_linea("7-2-42-999-0".to_string());
    nodo.handle(MensajeNodo::Cafetera(ReceiveFromCafetera { msg: Sumar::new(0, 42, 50).to_bytes(), socket: maquina(1) }));
    assert_eq!(nodo.cuenta(42).unwrap().saldo, 0);
}

#[test]
fn different_requests_get_different_ids() {
    let mut vistos = std::collections::HashSet::new();
    for nodo in 1..=3u8 {
        for cafetera in 0..3u8 {
            for orden in 1..=200u32 {
                assert!(vistos.insert(id_transaccion(nodo, cafetera, orden).unwrap()));
            }
        }
    }
    // Machines of two digits can share an id with machines of one.
    assert_eq!(id_transaccion(1, 12, 3), id_transaccion(1, 1, 23));
}

fn piden_eleccion(acciones: &[AccionNodo]) -> usize {
    acciones.iter().filter(|a| matches!(a, AccionNodo::StartElection)).count()
}

fn al_coordinador(acciones: &[AccionNodo]) -> Vec<String> {
    acciones
        .iter()
        .filter_map(|a| match a {
            AccionNodo::Coordinador(r) => Some(r.to_string()),
            _ => None,
        })
        .collect()
}

fn a_la_maquina(acciones: &[AccionNodo]) -> Vec<u8> {
    acciones
        .iter()
        .filter_map(|a| match a {
            AccionNodo::Cafetera { mensaje, .. } => Some(mensaje.to_bytes()[0]),
            _ => None,
        })
        .collect()
}

#[test]
fn a_node_whose_stream_ends_asks_for_an_election_even_if_it_led() {
    // The node that leads holds a stream to its own coordinator.
    let mut lider = Nodo::new(3, 3);
    assert!(lider.conectado());
    let acciones = lider.finished();
    assert_eq!(piden_eleccion(&acciones), 1);
    assert!(!lider.conectado());
    // Once the stream is known to be gone, nothing more is asked for.
    assert_eq!(piden_eleccion(&lider.finished()), 0);

    let mut seguidor = Nodo::new(1, 3);
    assert_eq!(piden_eleccion(&seguidor.finished()), 1);
}

#[test]
fn every_clearance_of_a_deduction_is_judged_by_the_balance() {
    let m = maquina(30);
    let mut nodo = Nodo::new(2, 3);
    nodo.handle(MensajeNodo::Cafetera(ReceiveFromCafetera { msg: Restar::new(0, 1, 500).to_bytes(), socket: m }));
    let id = id_transaccion(2, 0, 1).unwrap();
    let linea = format!("3-2-1-{}-0", id);
    for _ in 0..2 {
        let acciones = nodo.handle_linea(linea.clone());
        assert_eq!(a_la_maquina(&acciones), vec![OKEY]);
        assert!(al_coordinador(&acciones).is_empty());
        assert_eq!(nodo.transaccion_resta(id).unwrap().state, TransactionState::Locked);
    }

    let mut nodo = Nodo::new(2, 3);
    nodo.handle(MensajeNodo::Cafetera(ReceiveFromCafetera { msg: Restar::new(0, 1, 10001).to_bytes(), socket: m }));
    for _ in 0..2 {
        let acciones = nodo.handle_linea(linea.clone());
        assert_eq!(a_la_maquina(&acciones), vec![ERROR]);
        assert_eq!(al_coordinador(&acciones), vec![format!("7-2-1-{}-0", id)]);
        assert_eq!(nodo.transaccion_resta(id).unwrap().state, TransactionState::Abort);
        assert_eq!(nodo.cuenta(1).unwrap().saldo, SALDO_INICIAL);
    }
}

#[test]
fn a_credit_on_its_way_when_the_leader_is_lost_goes_to_the_next_leader() {
    let m = maquina(10);
    let mut nodo = Nodo::new(1, 3);
    nodo.handle(MensajeNodo::Cafetera(ReceiveFromCafetera { msg: Sumar::new(2, 7, 300).to_bytes(), socket: m }));
    let acciones =
        nodo.handle(MensajeNodo::Cafetera(ReceiveFromCafetera { msg: OkeyToCafetera::new(2, 7, 300).to_bytes(), socket: m }));
    let id = id_transaccion(1, 2, 1).unwrap();
    assert_eq!(al_coordinador(&acciones), vec![format!("4-1-7-{}-0-300-2", id)]);
    assert_eq!(nodo.transaccion_suma(id).unwrap().state, TransactionState::WaitCommit);
    // The leader goes before it commits.
    nodo.finished();
    assert_eq!(nodo.transaccion_suma(id).unwrap().state, TransactionState::ToSend);
    let acciones = nodo.handle(MensajeNodo::Coordinador(ReceiveNewCoordinator {
        id_nodo_coordinador: 2,
    }));
    // The completion goes to the new leader, once.
    assert_eq!(al_coordinador(&acciones), vec![format!("4-1-7-{}-0-300-2", id)]);
    assert!(matches!(acciones[0], AccionNodo::Conectar { id_coordinador: 2 }));
    assert_eq!(nodo.transaccion_suma(id).unwrap().state, TransactionState::WaitCommit);
    assert_eq!(nodo.id_coordinador(), 2);
}

#[test]
fn a_deduction_called_off_while_it_waits_leaves_its_queue_and_no_other() {
    let mut c = Coordinador::new();
    c.add_nodo(1);
    assert_eq!(c.starter(Starter::new(1, 9, 111, 0)).len(), 1);
    assert_eq!(c.starter(Starter::new(1, 8, 112, 0)).len(), 1);
    assert!(c.starter(Starter::new(1, 9, 113, 0)).is_empty());
    assert!(c.starter(Starter::new(1, 8, 114, 0)).is_empty());
    assert!(c.starter(Starter::new(1, 9, 115, 0)).is_empty());
    assert_eq!((c.largo_cola(9), c.largo_cola(8), c.largo_cola(7)), (3, 2, 0));

    // The one in the middle of the queue of account 9 is called off.
    assert_eq!(c.abort(Abort::new(1, 9, 113, 0)).len(), 1);
    assert!(c
        .okey_abort(cafeteria::server::mensaje::OkeyAbortToCoordinator::new(1, 9, 113, 0))
        .is_empty());
    assert_eq!((c.largo_cola(9), c.largo_cola(8)), (2, 2));
    assert_eq!(c.estado_de(113), Some(EstadoEnLider::Abort));
    assert_eq!(c.estado_de(115), Some(EstadoEnLider::Uninitialized));

    // Once the oldest is done, the next in line is the youngest, not the
    // one that was called off, and the other account is left alone.
    assert_eq!(c.yes(Yes::new(1, 9, 111, 0)).len(), 1);
    assert_eq!(c.finish(Finish::new(1, 9, 111, CommitType::RESTA, 5, 0)).len(), 1);
    let siguiente = c.okey(OkeyToCoordinator::new(1, 9, 111, 0));
    match siguiente[..] {
        [AccionCoordinador::Enviar { id_nodo: 1, registro: RegistroCoordinador::Prepare(p) }] => {
            assert_eq!(p.to_string(), "1-1-9-115-0");
        }
        _ => panic!("the youngest deduction was to be prepared"),
    }
    assert_eq!(c.estado_de(115), Some(EstadoEnLider::Wait));
    assert_eq!(c.estado_de(114), Some(EstadoEnLider::Uninitialized));
    assert_eq!((c.largo_cola(9), c.largo_cola(8)), (1, 2));
    // A leader cut off forgets its queues.
    c.disconnect();
    assert_eq!((c.largo_cola(9), c.largo_cola(8)), (0, 0));
    assert_eq!(c.estado_de(115), None);
}

#[test]
fn the_leader_takes_the_news_of_streams_and_of_the_network_like_any_record() {
    let mut c = Coordinador::new();
    assert!(c.handle(Entrada::AddNodo { id_nodo: 1 }).is_empty());
    assert!(c.handle(Entrada::AddNodo { id_nodo: 2 }).is_empty());
    assert!(c.handle(Entrada::AddNodo { id_nodo: 2 }).is_empty());
    assert_eq!(c.cantidad_nodos(), 2);
    assert_eq!(c.handle(Entrada::Starter(Starter::new(2, 9, 211, 0))).len(), 2);
    // The follower that started the deduction goes: it is called off
    // with the one that stays.
    let acciones = c.handle(Entrada::DisconnectNodo(DisconnectNodo { id_nodo: 2 }));
    match acciones[..] {
        [AccionCoordinador::Enviar { id_nodo: 1, registro: RegistroCoordinador::Abort(a) }] => {
            assert_eq!(a.to_string(), "7-2-9-211-0");
        }
        _ => panic!("one abort for the follower that stays was due"),
    }
    assert_eq!(c.cantidad_nodos(), 1);
    assert_eq!(c.estado_de(211), Some(EstadoEnLider::Abort));
    let fuera = cafeteria::server::coordinador::SetState { estado: false };
    assert!(c.handle(Entrada::SetState(fuera)).is_empty());
    assert!(!c.conectado());
    assert!(c.handle(Entrada::Starter(Starter::new(1, 9, 111, 0))).is_empty());
    assert_eq!(c.estado_de(111), None);
}

#[test]
fn the_end_of_the_stream_calls_off_every_pending_deduction_and_no_other() {
    let m = maquina(40);
    let otra = maquina(41);
    let mut nodo = Nodo::new(2, 3);
    // Three deductions: one waiting, one cleared, one already called off.
    nodo.handle(MensajeNodo::Cafetera(ReceiveFromCafetera {
        msg: Restar::new(0, 1, 500).to_bytes(),
        socket: m,
    }));
    nodo.handle(MensajeNodo::Cafetera(ReceiveFromCafetera {
        msg: Restar::new(1, 1, 600).to_bytes(),
        socket: otra,
    }));
    nodo.handle(MensajeNodo::Cafetera(ReceiveFromCafetera {
        msg: Restar::new(2, 1, 20000).to_bytes(),
        socket: m,
    }));
    let a = id_transaccion(2, 0, 1).unwrap();
    let b = id_transaccion(2, 1, 2).unwrap();
    let c = id_transaccion(2, 2, 3).unwrap();
    nodo.handle(MensajeNodo::Linea(format!("3-2-1-{}-1", b)));
    nodo.handle(MensajeNodo::Linea(format!("3-2-1-{}-2", c)));
    assert_eq!(nodo.transaccion_resta(a).unwrap().state, TransactionState::Wait);
    assert_eq!(nodo.transaccion_resta(b).unwrap().state, TransactionState::Locked);
    assert_eq!(nodo.transaccion_resta(c).unwrap().state, TransactionState::Abort);

    let acciones = nodo.handle(MensajeNodo::Fin);
    assert_eq!(piden_eleccion(&acciones), 1);
    assert_eq!(a_la_maquina(&acciones), vec![ERROR, ERROR]);
    let sockets: Vec<Direccion> = acciones
        .iter()
        .filter_map(|x| match x {
            AccionNodo::Cafetera { socket, .. } => Some(*socket),
            _ => None,
        })
        .collect();
    assert_eq!(sockets, vec![m, otra]);
    for id in [a, b, c] {
        assert_eq!(nodo.transaccion_resta(id).unwrap().state, TransactionState::Abort);
    }
    assert_eq!(nodo.cuenta(1).unwrap().saldo, SALDO_INICIAL);
    assert!(!nodo.conectado());
    // Nothing is left to call off.
    assert!(nodo.handle(MensajeNodo::Fin).is_empty());
}
