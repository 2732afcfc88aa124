//! Leader election among the nodes, after the bully algorithm, and the
//! search for the leader by a node that comes back. The listener takes one
//! event at a time and returns what to do; whoever runs it performs that
//! in order.
//!
//! A node that suspects the leader calls every node with a higher id and
//! waits. An answer means that a higher node takes over: the caller then
//! waits for the announcement. Silence until the wait runs out makes the
//! caller the leader. Waits are numbered: a wait that runs out counts only
//! if nothing has started another one since.

use crate::server::bully_messages::{
    Coordinator, Election, MensajeBully, MensajeBullyBytes, OkeyBully, Ping, PingCord,
    LARGO_TRAMA_BULLY,
};
use crate::server::nodo::ReceiveNewCoordinator;
use crate::server::utils::CANT_MAX_NODOS;
use vstd::prelude::*;

verus! {

/// Where a node stands in an election.
#[derive(Debug, Clone, Copy, PartialEq, Eq, Structural)]
pub enum BullyState {
    /// No election under way.
    NotExecuting,
    /// Higher nodes have been called; an answer is awaited.
    WaitingOkey,
    /// A higher node has answered; its announcement is awaited.
    WaitingCoordinator,
}

/// The order to start an election.
#[derive(Debug, Clone, Copy)]
pub struct StartElection;

/// Tells the listener whether the node is on the network.
#[derive(Debug, Clone, Copy)]
pub struct SetState {
    pub estado: bool,
}

/// What reaches the listener.
#[derive(Debug)]
pub enum EntradaBully {
    /// An election datagram.
    Trama(Vec<u8>),
    /// The order to start an election.
    StartElection(StartElection),
    /// The wait `turno` has run out.
    Timeout { turno: u32 },
    /// The node is on or off the network.
    SetState(SetState),
}

impl EntradaBully {
    /// True when the listener can take it: a datagram has to be one that
    /// can be read.
    pub open spec fn bien_formada(&self) -> bool {
        self matches EntradaBully::Trama(bytes) ==> trama_bien_formada(bytes@)
    }
}

/// An election message of any kind.
#[derive(Debug, Clone, Copy)]
pub enum TramaBully {
    Okey(OkeyBully),
    Election(Election),
    Coordinator(Coordinator),
    Ping(Ping),
    PingCord(PingCord),
}

/// One thing to do for the listener, in the order given.
#[derive(Debug, Clone, Copy)]
pub enum AccionBully {
    /// Send `mensaje` to the election address of the node `id_nodo`.
    Enviar { id_nodo: u8, mensaje: TramaBully },
    /// Tell the local node who leads.
    Notificar(ReceiveNewCoordinator),
    /// Start a wait; when it runs out, hand `turno` back.
    Esperar { turno: u32 },
}

impl TramaBully {
    /// The frame of the message.
    pub open spec fn spec_bytes(&self) -> Seq<u8> {
        match self {
            TramaBully::Okey(m) => seq![m.tipo_mensaje, m.id_nodo],
            TramaBully::Election(m) => seq![m.tipo_mensaje, m.id_nodo],
            TramaBully::Coordinator(m) => seq![m.tipo_mensaje, m.id_nodo],
            TramaBully::Ping(m) => seq![m.tipo_mensaje, m.id_nodo],
            TramaBully::PingCord(m) => seq![m.tipo_mensaje, m.id_nodo],
        }
    }

    pub fn to_bytes(&self) -> (r: Vec<u8>)
        ensures
            r@ == self.spec_bytes(),
    {
        match self {
            TramaBully::Okey(m) => m.to_bytes(),
            TramaBully::Election(m) => m.to_bytes(),
            TramaBully::Coordinator(m) => m.to_bytes(),
            TramaBully::Ping(m) => m.to_bytes(),
            TramaBully::PingCord(m) => m.to_bytes(),
        }
    }
}

/// The same message for every node, from the first id to the last, the
/// sender included.
pub open spec fn a_todos(mensaje: TramaBully) -> Seq<AccionBully> {
    Seq::new(
        CANT_MAX_NODOS as nat,
        |i: int| AccionBully::Enviar { id_nodo: (i + 1) as u8, mensaje },
    )
}

/// The same message for every node with an id above `id_nodo`, lowest
/// first.
pub open spec fn a_mayores(id_nodo: u8, mensaje: TramaBully) -> Seq<AccionBully> {
    Seq::new(
        if id_nodo < CANT_MAX_NODOS {
            (CANT_MAX_NODOS - id_nodo) as nat
        } else {
            0
        },
        |i: int| AccionBully::Enviar { id_nodo: (id_nodo + 1 + i) as u8, mensaje },
    )
}

/// The number of the wait after the wait `turno`.
pub open spec fn turno_siguiente(turno: u32) -> u32 {
    if turno == u32::MAX {
        0
    } else {
        (turno + 1) as u32
    }
}

/// What an election listener knows.
pub struct EstadoBully {
    pub estado: BullyState,
    /// Whether the node is on the network.
    pub conectado: bool,
    pub id_nodo: u8,
    /// Whether this node leads.
    pub soy_coordinador: bool,
    /// Number of the latest wait.
    pub turno: u32,
}

impl EstadoBully {
    /// An election starts: every higher node is called and a wait begins.
    /// Off the network nothing happens.
    pub open spec fn start_election(self) -> (EstadoBully, Seq<AccionBully>) {
        if !self.conectado {
            (self, Seq::<AccionBully>::empty())
        } else {
            let turno = turno_siguiente(self.turno);
            (
                EstadoBully { estado: BullyState::WaitingOkey, turno, ..self },
                a_mayores(
                    self.id_nodo,
                    TramaBully::Election(Election::spec_new(self.id_nodo)),
                ).push(AccionBully::Esperar { turno }),
            )
        }
    }

    /// A wait has run out. An old wait, or one that ends off the network,
    /// is ignored. If no higher node has answered, this node leads and
    /// tells every node. If one has answered but no leader was announced,
    /// the election starts again.
    pub open spec fn timeout(self, turno: u32) -> (EstadoBully, Seq<AccionBully>) {
        if !self.conectado || turno != self.turno {
            (self, Seq::<AccionBully>::empty())
        } else if self.estado == BullyState::WaitingOkey {
            (
                EstadoBully {
                    estado: BullyState::NotExecuting,
                    soy_coordinador: true,
                    ..self
                },
                a_todos(TramaBully::Coordinator(Coordinator::spec_new(self.id_nodo))),
            )
        } else if self.estado == BullyState::WaitingCoordinator {
            self.start_election()
        } else {
            (self, Seq::<AccionBully>::empty())
        }
    }

    /// A node calls an election: it gets an answer, and if its id is lower
    /// this node starts an election of its own.
    pub open spec fn election(self, m: Election) -> (EstadoBully, Seq<AccionBully>) {
        let ok = AccionBully::Enviar {
            id_nodo: m.id_nodo,
            mensaje: TramaBully::Okey(OkeyBully::spec_new(self.id_nodo)),
        };
        if m.id_nodo < self.id_nodo {
            (self.start_election().0, seq![ok] + self.start_election().1)
        } else {
            (self, seq![ok])
        }
    }

    /// A higher node answers: if this node was waiting for answers, it
    /// gives up leading and waits for the announcement instead.
    pub open spec fn okey(self, m: OkeyBully) -> (EstadoBully, Seq<AccionBully>) {
        if self.estado == BullyState::WaitingOkey {
            let turno = turno_siguiente(self.turno);
            (
                EstadoBully { estado: BullyState::WaitingCoordinator, turno, ..self },
                seq![AccionBully::Esperar { turno }],
            )
        } else {
            (self, Seq::<AccionBully>::empty())
        }
    }

    /// A node announces that it leads: the election is over, this node
    /// leads exactly if the announcement is its own, and the local node is
    /// told.
    pub open spec fn coordinator(self, m: Coordinator) -> (EstadoBully, Seq<AccionBully>) {
        (
            EstadoBully {
                estado: BullyState::NotExecuting,
                soy_coordinador: m.id_nodo == self.id_nodo,
                ..self
            },
            seq![
                AccionBully::Notificar(ReceiveNewCoordinator { id_nodo_coordinador: m.id_nodo }),
            ],
        )
    }

    /// A node asks who leads: the leader answers.
    pub open spec fn ping(self, m: Ping) -> (EstadoBully, Seq<AccionBully>) {
        if self.soy_coordinador {
            (
                self,
                seq![
                    AccionBully::Enviar {
                        id_nodo: m.id_nodo,
                        mensaje: TramaBully::PingCord(PingCord::spec_new(self.id_nodo)),
                    },
                ],
            )
        } else {
            (self, Seq::<AccionBully>::empty())
        }
    }

    /// The leader answers a ping: the local node is told who leads.
    pub open spec fn ping_cord(self, m: PingCord) -> (EstadoBully, Seq<AccionBully>) {
        (
            self,
            seq![
                AccionBully::Notificar(ReceiveNewCoordinator { id_nodo_coordinador: m.id_nodo }),
            ],
        )
    }

    /// The node is put on or off the network. Back on, it asks every node
    /// who leads; off, it leads no more.
    pub open spec fn set_state(self, m: SetState) -> (EstadoBully, Seq<AccionBully>) {
        if m.estado {
            (
                EstadoBully { conectado: true, ..self },
                a_todos(TramaBully::Ping(Ping::spec_new(self.id_nodo))),
            )
        } else {
            (
                EstadoBully { conectado: false, soy_coordinador: false, ..self },
                Seq::<AccionBully>::empty(),
            )
        }
    }

    /// What an election datagram brings about. Off the network every
    /// datagram is dropped.
    pub open spec fn recibir(self, bytes: Seq<u8>) -> (EstadoBully, Seq<AccionBully>) {
        if !self.conectado {
            (self, Seq::<AccionBully>::empty())
        } else {
            match MensajeBully::spec_from_bytes(bytes[0]) {
                MensajeBully::OKEY => self.okey(OkeyBully::spec_new(bytes[1])),
                MensajeBully::ELECTION => self.election(Election::spec_new(bytes[1])),
                MensajeBully::COORDINATOR => self.coordinator(Coordinator::spec_new(bytes[1])),
                MensajeBully::PING => self.ping(Ping::spec_new(bytes[1])),
                MensajeBully::PINGCORD => self.ping_cord(PingCord::spec_new(bytes[1])),
                MensajeBully::DESCONOCIDO => (self, Seq::<AccionBully>::empty()),
            }
        }
    }
}

impl EstadoBully {
    /// What the listener makes of whatever reaches it.
    pub open spec fn paso(self, e: EntradaBully) -> (EstadoBully, Seq<AccionBully>) {
        match e {
            EntradaBully::Trama(bytes) => self.recibir(bytes@),
            EntradaBully::StartElection(_) => self.start_election(),
            EntradaBully::Timeout { turno } => self.timeout(turno),
            EntradaBully::SetState(m) => self.set_state(m),
        }
    }
}

/// True when an election datagram can be read: it has a kind, and a
/// datagram of a known kind has the node that sent it.
pub open spec fn trama_bien_formada(bytes: Seq<u8>) -> bool {
    &&& bytes.len() >= 1
    &&& (MensajeBully::spec_from_bytes(bytes[0]) != MensajeBully::DESCONOCIDO ==> bytes.len()
        >= LARGO_TRAMA_BULLY)
}

/// Tells whether an election datagram can be read.
pub fn es_trama_bien_formada(bytes: &Vec<u8>) -> (r: bool)
    ensures
        r == trama_bien_formada(bytes@),
{
    if bytes.len() < 1 {
        return false;
    }
    match MensajeBully::from_bytes(bytes[0]) {
        MensajeBully::DESCONOCIDO => true,
        _ => bytes.len() >= LARGO_TRAMA_BULLY,
    }
}

/// The node with the highest id calls nobody: its election ends with its
/// own wait, and when that runs out it leads.
pub proof fn lemma_mayor_gana(s: EstadoBully)
    requires
        s.conectado,
        s.id_nodo >= CANT_MAX_NODOS,
    ensures
        s.start_election().1 == seq![AccionBully::Esperar { turno: turno_siguiente(s.turno) }],
        s.start_election().0.timeout(turno_siguiente(s.turno)).0.soy_coordinador,
        s.start_election().0.timeout(turno_siguiente(s.turno)).0.estado
            == BullyState::NotExecuting,
{
    assert(s.start_election().1 =~= seq![
        AccionBully::Esperar { turno: turno_siguiente(s.turno) },
    ]);
}

/// A node that has been answered does not make itself leader when its
/// first wait runs out: the answer has started a wait of another number.
pub proof fn lemma_respuesta_cancela(s: EstadoBully, m: OkeyBully)
    requires
        s.conectado,
    ensures
        ({
            let llamado = s.start_election().0;
            let respondido = llamado.okey(m).0;
            &&& respondido.estado == BullyState::WaitingCoordinator
            &&& respondido.timeout(llamado.turno).0 == respondido
            &&& respondido.timeout(llamado.turno).1 == Seq::<AccionBully>::empty()
        }),
{
}

/// Every call for an election from a lower node is answered, and makes
/// the called node call its own election.
pub proof fn lemma_llamada_respondida(s: EstadoBully, m: Election)
    requires
        s.conectado,
        m.id_nodo < s.id_nodo,
    ensures
        s.election(m).1[0] == (AccionBully::Enviar {
            id_nodo: m.id_nodo,
            mensaje: TramaBully::Okey(OkeyBully::spec_new(s.id_nodo)),
        }),
        s.election(m).0.estado == BullyState::WaitingOkey,
{
}

/// The election listener of a node.
pub struct BullyListener {
    estado: BullyState,
    conectado: bool,
    id_nodo: u8,
    soy_coordinador: bool,
    turno: u32,
}

impl View for BullyListener {
    type V = EstadoBully;

    closed spec fn view(&self) -> EstadoBully {
        EstadoBully {
            estado: self.estado,
            conectado: self.conectado,
            id_nodo: self.id_nodo,
            soy_coordinador: self.soy_coordinador,
            turno: self.turno,
        }
    }
}

fn ninguna() -> (r: Vec<AccionBully>)
    ensures
        r@ == Seq::<AccionBully>::empty(),
{
    Vec::new()
}

fn una(a: AccionBully) -> (r: Vec<AccionBully>)
    ensures
        r@ == seq![a],
{
    let mut v: Vec<AccionBully> = Vec::new();
    v.push(a);
    assert(v@ =~= seq![a]);
    v
}

fn enviar_a_todos(acciones: &mut Vec<AccionBully>, mensaje: TramaBully)
    ensures
        final(acciones)@ == old(acciones)@ + a_todos(mensaje),
{
    let ghost antes = acciones@;
    let mut i: u8 = 0;
    assert(acciones@ =~= antes + a_todos(mensaje).take(0));
    while i < CANT_MAX_NODOS
        invariant
            i <= CANT_MAX_NODOS,
            acciones@ == antes + a_todos(mensaje).take(i as int),
        decreases CANT_MAX_NODOS - i,
    {
        acciones.push(AccionBully::Enviar { id_nodo: i + 1, mensaje });
        assert(acciones@ =~= antes + a_todos(mensaje).take(i as int + 1));
        i = i + 1;
    }
    assert(a_todos(mensaje).take(i as int) =~= a_todos(mensaje));
}

fn enviar_a_mayores(acciones: &mut Vec<AccionBully>, id_nodo: u8, mensaje: TramaBully)
    ensures
        final(acciones)@ == old(acciones)@ + a_mayores(id_nodo, mensaje),
{
    let ghost antes = acciones@;
    let ghost meta = a_mayores(id_nodo, mensaje);
    if id_nodo >= CANT_MAX_NODOS {
        assert(acciones@ =~= antes + meta);
        return ;
    }
    let mut i: u8 = id_nodo + 1;
    assert(acciones@ =~= antes + meta.take(0));
    while i <= CANT_MAX_NODOS
        invariant
            id_nodo < i <= CANT_MAX_NODOS + 1,
            id_nodo < CANT_MAX_NODOS,
            meta == a_mayores(id_nodo, mensaje),
            acciones@ == antes + meta.take(i - id_nodo - 1),
        decreases CANT_MAX_NODOS + 1 - i,
    {
        acciones.push(AccionBully::Enviar { id_nodo: i, mensaje });
        assert(acciones@ =~= antes + meta.take(i - id_nodo));
        i = i + 1;
    }
    assert(meta.take(i - id_nodo - 1) =~= meta);
}

impl BullyListener {
    /// A listener on the network, that neither leads nor runs an election.
    pub fn new(id_nodo: u8) -> (r: BullyListener)
        ensures
            r@ == (EstadoBully {
                estado: BullyState::NotExecuting,
                conectado: true,
                id_nodo,
                soy_coordinador: false,
                turno: 0,
            }),
    {
        BullyListener {
            estado: BullyState::NotExecuting,
            conectado: true,
            id_nodo,
            soy_coordinador: false,
            turno: 0,
        }
    }

    pub fn estado(&self) -> (r: BullyState)
        ensures
            r == self@.estado,
    {
        self.estado
    }

    pub fn soy_coordinador(&self) -> (r: bool)
        ensures
            r == self@.soy_coordinador,
    {
        self.soy_coordinador
    }

    pub fn conectado(&self) -> (r: bool)
        ensures
            r == self@.conectado,
    {
        self.conectado
    }

    fn nuevo_turno(&mut self) -> (r: u32)
        ensures
            r == turno_siguiente(old(self)@.turno),
            final(self)@ == (EstadoBully { turno: r, ..old(self)@ }),
    {
        self.turno = if self.turno == u32::MAX {
            0
        } else {
            self.turno + 1
        };
        self.turno
    }

    /// Starts an election.
    pub fn start_election(&mut self, msg: StartElection) -> (r: Vec<AccionBully>)
        ensures
            (final(self)@, r@) == old(self)@.start_election(),
    {
        if !self.conectado {
            return ninguna();
        }
        self.estado = BullyState::WaitingOkey;
        let turno = self.nuevo_turno();
        let mut acciones: Vec<AccionBully> = Vec::new();
        enviar_a_mayores(
            &mut acciones,
            self.id_nodo,
            TramaBully::Election(Election::new(self.id_nodo)),
        );
        acciones.push(AccionBully::Esperar { turno });
        assert(acciones@ =~= old(self)@.start_election().1);
        acciones
    }

    /// Takes the end of the wait `turno`.
    pub fn timeout(&mut self, turno: u32) -> (r: Vec<AccionBully>)
        ensures
            (final(self)@, r@) == old(self)@.timeout(turno),
    {
        if !self.conectado || turno != self.turno {
            return ninguna();
        }
        match self.estado {
            BullyState::WaitingOkey => {
                self.soy_coordinador = true;
                self.estado = BullyState::NotExecuting;
                let mut acciones: Vec<AccionBully> = Vec::new();
                enviar_a_todos(
                    &mut acciones,
                    TramaBully::Coordinator(Coordinator::new(self.id_nodo)),
                );
                assert(acciones@ =~= old(self)@.timeout(turno).1);
                acciones
            },
            BullyState::WaitingCoordinator => self.start_election(StartElection),
            BullyState::NotExecuting => ninguna(),
        }
    }

    /// Takes a call for an election.
    pub fn election(&mut self, m: Election) -> (r: Vec<AccionBully>)
        ensures
            (final(self)@, r@) == old(self)@.election(m),
    {
        let mut acciones: Vec<AccionBully> = Vec::new();
        acciones.push(
            AccionBully::Enviar {
                id_nodo: m.id_nodo,
                mensaje: TramaBully::Okey(OkeyBully::new(self.id_nodo)),
            },
        );
        if m.id_nodo < self.id_nodo {
            let mut mas = self.start_election(StartElection);
            acciones.append(&mut mas);
        }
        assert(acciones@ =~= old(self)@.election(m).1);
        acciones
    }

    /// Takes the answer of a higher node.
    pub fn okey(&mut self, m: OkeyBully) -> (r: Vec<AccionBully>)
        ensures
            (final(self)@, r@) == old(self)@.okey(m),
    {
        if self.estado == BullyState::WaitingOkey {
            self.estado = BullyState::WaitingCoordinator;
            let turno = self.nuevo_turno();
            una(AccionBully::Esperar { turno })
        } else {
            ninguna()
        }
    }

    /// Takes the announcement of a leader.
    pub fn coordinator(&mut self, m: Coordinator) -> (r: Vec<AccionBully>)
        ensures
            (final(self)@, r@) == old(self)@.coordinator(m),
    {
        self.estado = BullyState::NotExecuting;
        self.soy_coordinador = m.id_nodo == self.id_nodo;
        una(AccionBully::Notificar(ReceiveNewCoordinator { id_nodo_coordinador: m.id_nodo }))
    }

    /// Takes the question of who leads.
    pub fn ping(&self, m: Ping) -> (r: Vec<AccionBully>)
        ensures
            (self@, r@) == self@.ping(m),
    {
        if self.soy_coordinador {
            una(
                AccionBully::Enviar {
                    id_nodo: m.id_nodo,
                    mensaje: TramaBully::PingCord(PingCord::new(self.id_nodo)),
                },
            )
        } else {
            ninguna()
        }
    }

    /// Takes the answer of the leader.
    pub fn ping_cord(&self, m: PingCord) -> (r: Vec<AccionBully>)
        ensures
            (self@, r@) == self@.ping_cord(m),
    {
        una(AccionBully::Notificar(ReceiveNewCoordinator { id_nodo_coordinador: m.id_nodo }))
    }

    /// Puts the listener on or off the network.
    pub fn set_state(&mut self, m: SetState) -> (r: Vec<AccionBully>)
        ensures
            (final(self)@, r@) == old(self)@.set_state(m),
    {
        self.conectado = m.estado;
        if self.conectado {
            let mut acciones: Vec<AccionBully> = Vec::new();
            enviar_a_todos(&mut acciones, TramaBully::Ping(Ping::new(self.id_nodo)));
            assert(acciones@ =~= old(self)@.set_state(m).1);
            acciones
        } else {
            self.soy_coordinador = false;
            ninguna()
        }
    }

    /// Takes whatever reaches the listener: a datagram, the order to
    /// start an election, the end of a wait, or the news of the network.
    pub fn handle(&mut self, e: EntradaBully) -> (r: Vec<AccionBully>)
        requires
            e.bien_formada(),
        ensures
            (final(self)@, r@) == old(self)@.paso(e),
    {
        match e {
            EntradaBully::Trama(bytes) => self.handle_trama(bytes),
            EntradaBully::StartElection(m) => self.start_election(m),
            EntradaBully::Timeout { turno } => self.timeout(turno),
            EntradaBully::SetState(m) => self.set_state(m),
        }
    }

    /// Takes an election datagram.
    pub fn handle_trama(&mut self, bytes: Vec<u8>) -> (r: Vec<AccionBully>)
        requires
            trama_bien_formada(bytes@),
        ensures
            (final(self)@, r@) == old(self)@.recibir(bytes@),
    {
        if !self.conectado {
            return ninguna();
        }
        match MensajeBully::from_bytes(bytes[0]) {
            MensajeBully::OKEY => {
                let mensaje = OkeyBully::from_bytes(bytes);
                self.okey(mensaje)
            },
            MensajeBully::ELECTION => {
                let mensaje = Election::from_bytes(bytes);
                self.election(mensaje)
            },
            MensajeBully::COORDINATOR => {
                let mensaje = Coordinator::from_bytes(bytes);
                self.coordinator(mensaje)
            },
            MensajeBully::PING => {
                let mensaje = Ping::from_bytes(bytes);
                self.ping(mensaje)
            },
            MensajeBully::PINGCORD => {
                let mensaje = PingCord::from_bytes(bytes);
                self.ping_cord(mensaje)
            },
            MensajeBully::DESCONOCIDO => ninguna(),
        }
    }
}

} // verus!
